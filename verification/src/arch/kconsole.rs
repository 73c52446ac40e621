//! The kernel console: output serialised by a spin lock.
use vstd::prelude::*;
use crate::arch::atomic::SpinLock;

verus! {

/// The kernel console; its lock keeps the output of different harts apart.
pub struct KConsole {
    lock: SpinLock,
}

impl KConsole {
    /// The lock that serialises writes.
    pub closed spec fn console_lock(&self) -> SpinLock {
        self.lock
    }

    /// A console whose lock is free.
    pub fn new() -> KConsole {
        KConsole { lock: SpinLock::new() }
    }

    /// The lock that serialises writes.
    pub fn lock(&self) -> (r: &SpinLock)
        ensures
            *r == self.console_lock(),
    {
        &self.lock
    }
}

} // verus!
