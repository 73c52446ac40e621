use std::cell::Cell;
use std::sync::atomic::{AtomicBool, Ordering};

use lib::arch::atomic::{frees_main_lock, takes_main_lock, MRSWLock, RWLock, SpinLock, SpinWait};
use lib::arch::kconsole::KConsole;
use lib::arch::spinlock::SpinLock as PlainSpinLock;
use lib::kserver::KServerManager;
use lib::utils::kerror::KError;

/// Spins on the flag, as a hart does.
struct Spin;

impl SpinWait for Spin {
    fn acquire(&self, flag: &AtomicBool) {
        while flag.compare_exchange_weak(false, true, Ordering::AcqRel, Ordering::Relaxed).is_err() {}
    }

    fn release(&self, flag: &AtomicBool) {
        while flag.compare_exchange_weak(true, false, Ordering::AcqRel, Ordering::Relaxed).is_err() {}
    }
}

/// Counts the waits without waiting, and remembers what the flag held at each one.
struct Recorder {
    acquires: Cell<u32>,
    releases: Cell<u32>,
    busy_acquires: Cell<u32>,
}

impl Recorder {
    fn new() -> Self {
        Recorder { acquires: Cell::new(0), releases: Cell::new(0), busy_acquires: Cell::new(0) }
    }
}

impl SpinWait for Recorder {
    fn acquire(&self, flag: &AtomicBool) {
        self.acquires.set(self.acquires.get() + 1);
        if flag.compare_exchange(false, true, Ordering::AcqRel, Ordering::Relaxed).is_err() {
            self.busy_acquires.set(self.busy_acquires.get() + 1);
        }
    }

    fn release(&self, flag: &AtomicBool) {
        self.releases.set(self.releases.get() + 1);
        let _ = flag.compare_exchange(true, false, Ordering::AcqRel, Ordering::Relaxed);
    }
}

#[test]
fn try_lock_takes_a_free_lock_once() {
    let l = SpinLock::new();
    assert!(l.try_lock());
    assert!(!l.try_lock());
    l.unlock(&Spin);
    assert!(l.try_lock());
}

#[test]
fn lock_then_unlock_frees() {
    let l = SpinLock::new();
    l.lock(&Spin);
    assert!(!l.try_lock());
    l.unlock(&Spin);
    assert!(l.try_lock());
}

#[test]
fn plain_spin_lock_behaves_alike() {
    let l = PlainSpinLock::new();
    assert!(l.try_lock());
    assert!(!l.try_lock());
    l.unlock(&Spin);
    l.lock(&Spin);
    assert!(!l.try_lock());
}

#[test]
fn console_lock_starts_free() {
    let c = KConsole::new();
    assert!(c.lock().try_lock());
}

#[test]
fn reader_decisions() {
    assert!(takes_main_lock(0));
    assert!(!takes_main_lock(1));
    assert!(!takes_main_lock(7));
    assert!(frees_main_lock(1));
    assert!(!frees_main_lock(0));
    assert!(!frees_main_lock(2));
}

#[test]
fn readers_share_the_lock() {
    let m = MRSWLock::new();
    m.reader_lock(&Spin);
    m.reader_lock(&Spin);
    m.reader_unlock(&Spin);
    m.reader_unlock(&Spin);
    // The last reader freed the main lock, so a writer gets it at once.
    let r = Recorder::new();
    m.writer_lock(&r);
    assert_eq!(r.busy_acquires.get(), 0);
}

#[test]
fn first_reader_takes_and_last_reader_frees_the_main_lock() {
    let m = MRSWLock::new();
    let r = Recorder::new();
    m.reader_lock(&r);
    assert_eq!((r.acquires.get(), r.releases.get()), (2, 1));
    m.reader_lock(&r);
    assert_eq!((r.acquires.get(), r.releases.get()), (3, 2));
    m.reader_unlock(&r);
    assert_eq!((r.acquires.get(), r.releases.get()), (4, 3));
    m.reader_unlock(&r);
    assert_eq!((r.acquires.get(), r.releases.get()), (5, 5));
    assert_eq!(r.busy_acquires.get(), 0);
}

#[test]
fn writer_unlock_waits_for_the_lock_again() {
    let m = MRSWLock::new();
    let r = Recorder::new();
    m.writer_lock(&r);
    m.writer_unlock(&r);
    assert_eq!((r.acquires.get(), r.releases.get()), (2, 0));
    // The second acquire found the lock taken: a spinning hart would wait there for good.
    assert_eq!(r.busy_acquires.get(), 1);
}

#[test]
fn rwlock_gives_the_content() {
    let mut l = RWLock::new(5u32);
    assert_eq!(*l.start_read_context(&Spin), 5);
    l.end_read_context(&Spin);
    let r = Recorder::new();
    *l.start_write_context(&r) = 9;
    l.end_write_context(&r);
    assert_eq!(*l.start_read_context(&r), 9);
}

#[test]
fn server_manager_runs_operations_on_the_servers() {
    let mut s = KServerManager::init(0x3fff_e000);
    let r = Recorder::new();
    assert_eq!(s.with_page_mut(&r, |pm| pm.alloc_ppage()), Ok(0xbfff_e000));
    let pid = s.with_process_mut(&r, |pm| {
        let mut pages = RWLock::new(lib::kserver::page::PageManager::init(0x3fff_f000).unwrap());
        pm.new_process(&mut pages, &Recorder::new()).map(|p| p.pid())
    });
    assert_eq!(pid, Ok(0));
    assert_eq!(s.with_page_mut(&r, |pm| pm.alloc_ppage()), Ok(0xbfff_f000));
    assert_eq!(s.with_page_mut(&r, |pm| pm.alloc_ppage()), Err(KError::NotEnoughPage));
}

#[test]
fn server_manager_reads_the_page_server() {
    let s = KServerManager::init(0x3fff_e000);
    let n = s.with_page(&Spin, |pm| {
        let _ = pm;
        1u32
    });
    assert_eq!(n, 1);
}
