//! The system-call dispatch table.
use vstd::prelude::*;
use crate::config::MAX_SYSCALL;

verus! {

/// Entry addresses of the system-call handlers, indexed by system-call number; 0 where none
/// is registered.
pub struct SyscallTable {
    handlers: Vec<usize>,
}

impl View for SyscallTable {
    type V = Seq<usize>;

    closed spec fn view(&self) -> Seq<usize> {
        self.handlers@
    }
}

impl SyscallTable {
    /// A table with no handler registered.
    pub fn new() -> (t: Self)
        ensures
            t@ == Seq::new(MAX_SYSCALL as nat, |i: int| 0usize),
    {
        let mut handlers: Vec<usize> = Vec::new();
        let mut i: usize = 0;
        while i < MAX_SYSCALL
            invariant
                i <= MAX_SYSCALL,
                handlers@ == Seq::new(i as nat, |j: int| 0usize),
            decreases MAX_SYSCALL - i,
        {
            handlers.push(0);
            i += 1;
        }
        SyscallTable { handlers }
    }

    /// The handler registered for system call `number`.
    pub fn handler(&self, number: usize) -> (h: usize)
        requires
            number < self@.len(),
        ensures
            h == self@[number as int],
    {
        self.handlers[number]
    }
}

/// Registers the handler at address `handler` for system call `number`.
pub fn register_handler(table: &mut SyscallTable, number: usize, handler: usize)
    requires
        number < old(table)@.len(),
    ensures
        final(table)@ == old(table)@.update(number as int, handler),
{
    table.handlers.set(number, handler);
}

/// After registering handler `h` for call `n`, looking up `n` gives `h` and every other call's
/// handler is as before.
pub proof fn lemma_registered_handler(table: Seq<usize>, n: int, h: usize)
    requires
        0 <= n < table.len(),
    ensures
        table.update(n, h)[n] == h,
        forall|m: int| 0 <= m < table.len() && m != n ==> #[trigger] table.update(n, h)[m] == table[m],
        table.update(n, h).len() == table.len(),
{
}

} // verus!
