use std::cell::Cell;
use std::sync::atomic::{AtomicBool, Ordering};

use lib::arch::atomic::{RWLock, SpinWait};
use lib::config::MAX_PROCESS;
use lib::kserver::page::PageManager;
use lib::kserver::process::ProcessManager;
use lib::kserver::{MemoryTrait, ProcessTrait};
use lib::utils::kerror::KError;

/// Tries each lock flag once instead of spinning, and counts the tries that found it taken.
struct TryOnce {
    busy: Cell<u32>,
}

impl TryOnce {
    fn new() -> Self {
        TryOnce { busy: Cell::new(0) }
    }
}

impl SpinWait for TryOnce {
    fn acquire(&self, flag: &AtomicBool) {
        if flag.compare_exchange(false, true, Ordering::AcqRel, Ordering::Relaxed).is_err() {
            self.busy.set(self.busy.get() + 1);
        }
    }

    fn release(&self, flag: &AtomicBool) {
        let _ = flag.compare_exchange(true, false, Ordering::AcqRel, Ordering::Relaxed);
    }
}

fn server(kernel_end: usize) -> RWLock<PageManager> {
    RWLock::new(PageManager::init(kernel_end).unwrap())
}

#[test]
fn new_process_takes_first_slot_and_a_page() {
    let mut procs = ProcessManager::init().unwrap();
    let mut pages = server(0x3fff_e000);
    let w = TryOnce::new();
    let p = procs.new_process(&mut pages, &w).unwrap();
    assert_eq!(p.pid(), 0);
    assert_eq!(p.pde_paddr(), 0xbfff_e000);
    let q = procs.new_process(&mut pages, &w).unwrap();
    assert_eq!(q.pid(), 1);
    assert_eq!(q.pde_paddr(), 0xbfff_f000);
}

#[test]
fn new_process_leaves_the_page_server_locked() {
    let mut procs = ProcessManager::init().unwrap();
    let mut pages = server(0x3fff_e000);
    let w = TryOnce::new();
    procs.new_process(&mut pages, &w).unwrap();
    // Leaving the write context tried to take the lock it still held.
    assert_eq!(w.busy.get(), 1);
    // The next process finds the server's lock taken, on entering and on leaving.
    procs.new_process(&mut pages, &w).unwrap();
    assert_eq!(w.busy.get(), 3);
}

#[test]
fn new_process_without_page_fails() {
    let mut procs = ProcessManager::init().unwrap();
    let mut pages = server(0x8020_0000);
    let w = TryOnce::new();
    assert!(matches!(procs.new_process(&mut pages, &w), Err(KError::NotEnoughPage)));
    // The slot was not used up.
    let mut more = server(0x3fff_f000);
    assert_eq!(procs.new_process(&mut more, &w).unwrap().pid(), 0);
}

#[test]
fn new_process_without_slot_fails_and_keeps_the_page() {
    let mut procs = ProcessManager::init().unwrap();
    let mut pages = server(0);
    let w = TryOnce::new();
    for i in 0..MAX_PROCESS {
        assert_eq!(procs.new_process(&mut pages, &w).unwrap().pid() as usize, i);
    }
    assert!(matches!(procs.new_process(&mut pages, &w), Err(KError::NotEnoughProcess)));
    // The page taken for the failed attempt is not handed out again.
    let next = pages.start_write_context(&w).alloc_ppage();
    assert_eq!(next, Ok(0x8000_0000 + (MAX_PROCESS + 1) * 4096));
}

#[test]
fn server_traits_set_up_the_managers() {
    let mut pages = RWLock::new(<PageManager as MemoryTrait>::init(0x3fff_f000).unwrap());
    let mut procs = <ProcessManager as ProcessTrait>::init().unwrap();
    let w = TryOnce::new();
    let p = <ProcessManager as ProcessTrait>::new_process(&mut procs, &mut pages, &w).unwrap();
    assert_eq!(p.pde_paddr(), 0xbfff_f000);
}
