//! Architecture-dependent parts: physical memory, the Sv39 MMU, SBI results and locks.
pub mod atomic;
pub mod interrupt;
pub mod kconsole;
pub mod mem;
pub mod rtype;
pub mod sbi;
pub mod spinlock;
pub mod sv39;
