# rotos kernel core, verified

The library (`src/`) holds the logic of a small RISC-V micro-kernel, checked by Verus:

- `arch::sv39`: the Sv39 page-table walk that allocates missing directories (its first
  directory is indexed by address bits 12..21 and its last by bits 30..39, the reverse of the
  hardware's order), with its
  specification `walk` and laws (a returned entry is valid, valid entries are never rewritten,
  a second walk changes nothing, at most three pages are taken, an allocator error is passed on, a fresh path is built as expected).
- `arch::mem`: physical memory as a map of 64-bit words; the RAM range.
- `kserver::page`: the physical page manager (free and used lists, allocation in ascending order).
- `kserver::process`: the process table.
- `kserver`: the servers behind read/write locks.
- `arch::atomic`, `arch::spinlock`: spin locks and the reader-preferring lock; the spin loop
  itself is supplied by the caller through `SpinWait`.
- `arch::sbi`: decoding of SBI return codes. `page`: kernel/physical address translation.
- `syscall`: the system-call handler table. `arch::interrupt`: per-hart trap contexts.

`app/main.rs` is the program around it: the spin loops, the SBI `ecall`s and CSR setup (RISC-V
only), the console writer and the boot sequence. `tests/` exercises the library on concrete values.
