//! A stand-alone spin lock.
use core::sync::atomic::{AtomicBool, Ordering};
use vstd::prelude::*;
use crate::arch::atomic::SpinWait;

verus! {

/// A lock held by at most one hart at a time.
pub struct SpinLock {
    lock: AtomicBool,
}

impl SpinLock {
    /// A free lock.
    pub fn new() -> SpinLock {
        SpinLock { lock: AtomicBool::new(false) }
    }

    /// Takes the lock if it is free, without waiting; tells whether it was taken.
    pub fn try_lock(&self) -> bool {
        self.lock.compare_exchange(false, true, Ordering::AcqRel, Ordering::Relaxed).is_ok()
    }

    /// Waits until the lock is free and takes it.
    pub fn lock<W: SpinWait>(&self, wait: &W) {
        wait.acquire(&self.lock)
    }

    /// Waits until the lock is taken and frees it.
    pub fn unlock<W: SpinWait>(&self, wait: &W) {
        wait.release(&self.lock)
    }
}

} // verus!
