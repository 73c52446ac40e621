//! Kernel servers: the physical page manager and the process manager.
pub mod page;
pub mod process;

use vstd::prelude::*;
use crate::arch::atomic::{RWLock, SpinWait};
use crate::kserver::page::PageManager;
use crate::kserver::process::ProcessManager;
use crate::utils::kerror::KError;

verus! {

/// A memory server, set up from where the kernel image ends.
pub trait MemoryTrait: Sized {
    /// Sets up the server with the memory past `kernel_end_addr`.
    fn init(kernel_end_addr: usize) -> Result<Self, &'static str>;
}

/// A process server.
pub trait ProcessTrait: Sized {
    /// The per-process record the server hands out.
    type PCB: Sized;

    /// Sets up the server.
    fn init() -> Result<Self, &'static str>;

    /// The server's own well-formedness.
    spec fn inv(&self) -> bool;

    /// Sets up a new process, taking its root page directory from the page server.
    fn new_process<W: SpinWait>(
        &mut self,
        page_server: &mut RWLock<PageManager>,
        wait: &W,
    ) -> (r: Result<Self::PCB, KError>)
        requires
            old(self).inv(),
            old(page_server).content().wf(),
        ensures
            final(self).inv(),
            final(page_server).content().wf(),
    ;
}

/// The kernel servers, each behind a read/write lock.
///
/// No server may be used from inside an operation on another: the locks would deadlock.
pub struct KServerManager {
    memory: RWLock<PageManager>,
    process: RWLock<ProcessManager>,
}

impl KServerManager {
    /// The page manager.
    pub closed spec fn memory(&self) -> PageManager {
        self.memory.content()
    }

    /// The process manager.
    pub closed spec fn process(&self) -> ProcessManager {
        self.process.content()
    }

    /// Sets up both servers: the page manager with the memory past `kernel_end_addr`, and the
    /// process manager.
    pub fn init(kernel_end_addr: usize) -> (r: KServerManager)
        ensures
            r.memory().wf(),
            r.memory().free_pages() == page::initial_free_pages(page::user_start_ppn(kernel_end_addr)),
            r.memory().used_pages().len() == 0,
            r.process().free_slots().len() == crate::config::MAX_PROCESS,
            r.process().used_slots().len() == 0,
            r.process().wf(),
            forall|i: int|
                0 <= i < crate::config::MAX_PROCESS ==> process::initial_slot(
                    #[trigger] r.process().free_slots()[i],
                    i,
                ),
    {
        let memory = PageManager::init(kernel_end_addr).unwrap();
        let process = ProcessManager::init().unwrap();
        KServerManager { memory: RWLock::new(memory), process: RWLock::new(process) }
    }

    /// Runs `operation` on the page manager with shared access and returns its result.
    pub fn with_page<W: SpinWait, F: Fn(&PageManager) -> T, T>(&self, wait: &W, operation: F) -> (r: T)
        requires
            operation.requires((&self.memory(),)),
        ensures
            operation.ensures((&self.memory(),), r),
    {
        let server = &self.memory;
        let ret = operation(server.start_read_context(wait));
        server.end_read_context(wait);
        ret
    }

    /// Runs `operation` on the page manager with exclusive access and returns its result.
    pub fn with_page_mut<W: SpinWait, F: Fn(&mut PageManager) -> T, T>(&mut self, wait: &W, operation: F) -> (r: T)
        requires
            forall|pm: &mut PageManager| *pm == old(self).memory() ==> operation.requires((pm,)),
        ensures
            exists|pm: &mut PageManager|
                *pm == old(self).memory() && *final(pm) == final(self).memory()
                    && operation.ensures((pm,), r),
            final(self).process() == old(self).process(),
    {
        let server = &mut self.memory;
        let ret = operation(server.start_write_context(wait));
        server.end_write_context(wait);
        ret
    }

    /// Runs `operation` on the process manager with exclusive access and returns its result.
    pub fn with_process_mut<W: SpinWait, F: Fn(&mut ProcessManager) -> T, T>(&mut self, wait: &W, operation: F) -> (r: T)
        requires
            forall|pm: &mut ProcessManager| *pm == old(self).process() ==> operation.requires((pm,)),
        ensures
            exists|pm: &mut ProcessManager|
                *pm == old(self).process() && *final(pm) == final(self).process()
                    && operation.ensures((pm,), r),
            final(self).memory() == old(self).memory(),
    {
        let server = &mut self.process;
        let ret = operation(server.start_write_context(wait));
        server.end_write_context(wait);
        ret
    }
}

} // verus!
