//! Spin locks and the reader-preferring read/write lock built on them.
//!
//! Waiting for another hart to release a flag has no bound, so the spin itself is supplied by
//! the caller through [`SpinWait`]; everything else happens here.
use core::sync::atomic::{AtomicBool, AtomicU32, Ordering};
use vstd::prelude::*;

verus! {

/// How a caller waits on a lock flag: spins until it turns the flag from free (`false`) to
/// taken (`true`), or from taken to free.
pub trait SpinWait {
    /// Returns once this caller has turned `flag` from `false` to `true`.
    fn acquire(&self, flag: &AtomicBool);

    /// Returns once this caller has turned `flag` from `true` to `false`.
    fn release(&self, flag: &AtomicBool);
}

/// A lock held by at most one hart at a time.
pub struct SpinLock {
    lock: AtomicBool,
}

impl SpinLock {
    /// A free lock.
    pub fn new() -> SpinLock {
        SpinLock { lock: AtomicBool::new(false) }
    }

    /// Takes the lock if it is free, without waiting; tells whether it was taken.
    pub fn try_lock(&self) -> bool {
        self.lock.compare_exchange(false, true, Ordering::AcqRel, Ordering::Relaxed).is_ok()
    }

    /// Waits until the lock is free and takes it.
    pub fn lock<W: SpinWait>(&self, wait: &W) {
        wait.acquire(&self.lock)
    }

    /// Waits until the lock is taken and frees it.
    pub fn unlock<W: SpinWait>(&self, wait: &W) {
        wait.release(&self.lock)
    }
}

/// Whether a reader that found `previous_readers` readers before it must take the main lock:
/// only the first reader does.
pub fn takes_main_lock(previous_readers: u32) -> (r: bool)
    ensures
        r == (previous_readers == 0),
{
    previous_readers == 0
}

/// Whether a leaving reader that found `previous_readers` readers (itself included) must free
/// the main lock: only the last reader does.
pub fn frees_main_lock(previous_readers: u32) -> (r: bool)
    ensures
        r == (previous_readers == 1),
{
    previous_readers == 1
}

/// A reader-preferring lock: readers share the main lock, which the first reader takes and the
/// last one frees; a writer holds it alone.
pub struct MRSWLock {
    lock: SpinLock,
    count_lock: SpinLock,
    reader_count: AtomicU32,
}

impl MRSWLock {
    /// A free lock with no reader.
    pub fn new() -> Self {
        MRSWLock { lock: SpinLock::new(), count_lock: SpinLock::new(), reader_count: AtomicU32::new(0) }
    }

    /// Enters as a reader: counts itself and, if it is the first reader, takes the main lock.
    pub fn reader_lock<W: SpinWait>(&self, wait: &W) {
        self.count_lock.lock(wait);
        let pv_reader_count: u32 = self.reader_count.fetch_add(1, Ordering::AcqRel);
        if takes_main_lock(pv_reader_count) {
            self.lock.lock(wait)
        }
        self.count_lock.unlock(wait);
    }

    /// Leaves as a reader: uncounts itself and, if it was the last reader, frees the main lock.
    pub fn reader_unlock<W: SpinWait>(&self, wait: &W) {
        self.count_lock.lock(wait);
        let pv_reader_count: u32 = self.reader_count.fetch_sub(1, Ordering::AcqRel);
        if frees_main_lock(pv_reader_count) {
            self.lock.unlock(wait)
        }
        self.count_lock.unlock(wait);
    }

    /// Enters as the writer: takes the main lock.
    pub fn writer_lock<W: SpinWait>(&self, wait: &W) {
        self.lock.lock(wait)
    }

    /// Leaves as the writer. This waits to take the main lock again rather than freeing it, so
    /// a writer that holds the lock waits here for good.
    pub fn writer_unlock<W: SpinWait>(&self, wait: &W) {
        self.lock.lock(wait)
    }
}

/// A value guarded by a reader-preferring lock.
pub struct RWLock<T> {
    lock: MRSWLock,
    content: T,
}

impl<T> RWLock<T> {
    /// The guarded value.
    pub closed spec fn content(&self) -> T {
        self.content
    }

    /// Guards `content` with a free lock.
    pub fn new(content: T) -> (r: Self)
        ensures
            r.content() == content,
    {
        RWLock { lock: MRSWLock::new(), content }
    }

    /// Enters as a reader and gives shared access to the value.
    pub fn start_read_context<W: SpinWait>(&self, wait: &W) -> (r: &T)
        ensures
            *r == self.content(),
    {
        self.lock.reader_lock(wait);
        &self.content
    }

    /// Leaves as a reader.
    pub fn end_read_context<W: SpinWait>(&self, wait: &W) {
        self.lock.reader_unlock(wait)
    }

    /// Enters as the writer and gives exclusive access to the value.
    pub fn start_write_context<W: SpinWait>(&mut self, wait: &W) -> (r: &mut T)
        ensures
            *r == old(self).content(),
            final(self).content() == *final(r),
    {
        self.lock.writer_lock(wait);
        &mut self.content
    }

    /// Leaves as the writer (see [`MRSWLock::writer_unlock`]).
    pub fn end_write_context<W: SpinWait>(&self, wait: &W) {
        self.lock.writer_unlock(wait)
    }
}

} // verus!
