//! The process manager: a table of process slots handed out on request.
use std::collections::VecDeque;
use vstd::prelude::*;
use crate::arch::atomic::{RWLock, SpinWait};
use crate::arch::interrupt::RegisterEnv;
use crate::config::MAX_PROCESS;
use crate::kserver::page::{PageManager, is_ram_page};
use crate::kserver::ProcessTrait;
use crate::utils::kerror::KError;
use crate::utils::Bss;

verus! {

broadcast use vstd::std_specs::vecdeque::group_vec_dequeue_axioms;

/// The plain contents of a process slot.
pub struct ProcessRecord {
    pub pid: u32,
    pub pgid: u32,
    pub ppid: u32,
    pub pde_paddr: usize,
    pub regs: RegisterEnv,
}

/// A process slot: ids, the root page directory and the saved registers.
pub struct ProcessInfo {
    pid: u32,
    pgid: u32,
    ppid: u32,
    pde_paddr: usize,
    regs: RegisterEnv,
}

impl View for ProcessInfo {
    type V = ProcessRecord;

    closed spec fn view(&self) -> ProcessRecord {
        ProcessRecord {
            pid: self.pid,
            pgid: self.pgid,
            ppid: self.ppid,
            pde_paddr: self.pde_paddr,
            regs: self.regs,
        }
    }
}

impl ProcessInfo {
    /// The process id.
    pub fn pid(&self) -> (r: u32)
        ensures
            r == self@.pid,
    {
        self.pid
    }

    /// Physical address of the process's root page directory.
    pub fn pde_paddr(&self) -> (r: usize)
        ensures
            r == self@.pde_paddr,
    {
        self.pde_paddr
    }
}

impl Bss for ProcessInfo {
    fn zero() -> (z: Self)
        ensures
            z@.pid == 0,
            z@.pgid == 0,
            z@.ppid == 0,
            z@.pde_paddr == 0,
            z@.regs.is_zero(),
    {
        ProcessInfo { pid: 0, pgid: 0, ppid: 0, pde_paddr: 0, regs: RegisterEnv::zero() }
    }
}

/// The slot a fresh process table holds at position `idx`: id `idx`, everything else zero.
pub open spec fn initial_slot(r: ProcessRecord, idx: int) -> bool {
    &&& r.pid == idx
    &&& r.pgid == 0
    &&& r.ppid == 0
    &&& r.pde_paddr == 0
    &&& r.regs.is_zero()
}

/// The process manager: free slots, handed out from the front, and slots in use.
pub struct ProcessManager {
    free: VecDeque<ProcessInfo>,
    used: VecDeque<ProcessInfo>,
}

impl ProcessManager {
    /// The free slots, in the order they will be handed out.
    pub closed spec fn free_slots(&self) -> Seq<ProcessRecord> {
        self.free@.map_values(|p: ProcessInfo| p@)
    }

    /// The slots in use.
    pub closed spec fn used_slots(&self) -> Seq<ProcessRecord> {
        self.used@.map_values(|p: ProcessInfo| p@)
    }

    /// No two free slots carry the same process id.
    pub open spec fn wf(&self) -> bool {
        forall|i: int, j: int|
            0 <= i < j < self.free_slots().len() ==> #[trigger] self.free_slots()[i].pid
                != #[trigger] self.free_slots()[j].pid
    }

    /// Sets up `MAX_PROCESS` free slots, slot `i` with process id `i`, and none in use.
    pub fn init() -> (r: Result<ProcessManager, &'static str>)
        ensures
            r matches Ok(pm) && pm.wf() && pm.free_slots().len() == MAX_PROCESS && pm.used_slots().len() == 0
                && forall|i: int| 0 <= i < MAX_PROCESS ==> initial_slot(#[trigger] pm.free_slots()[i], i),
    {
        let mut free: VecDeque<ProcessInfo> = VecDeque::new();
        let mut idx: usize = 0;
        while idx < MAX_PROCESS
            invariant
                idx <= MAX_PROCESS,
                free@.len() == idx,
                forall|i: int| 0 <= i < idx ==> initial_slot(#[trigger] free@[i]@, i),
            decreases MAX_PROCESS - idx,
        {
            let mut pinfo = ProcessInfo::zero();
            pinfo.pid = idx as u32;
            free.push_back(pinfo);
            idx += 1;
        }
        let ret = ProcessManager { free, used: VecDeque::new() };
        assert forall|i: int| 0 <= i < MAX_PROCESS implies initial_slot(#[trigger] ret.free_slots()[i], i) by {
            assert(ret.free_slots()[i] == free@[i]@);
        }
        assert forall|i: int, j: int| 0 <= i < j < ret.free_slots().len() implies #[trigger] ret.free_slots()[i].pid
            != #[trigger] ret.free_slots()[j].pid by {
            assert(ret.free_slots()[i] == free@[i]@);
            assert(ret.free_slots()[j] == free@[j]@);
        }
        Ok(ret)
    }

    /// Sets up a new process: takes a page for its root directory from the page server, inside
    /// the server's write context, then the first free slot, records the page in it and hands the
    /// slot over.
    ///
    /// Leaving the write context waits to take the server's lock again (see
    /// `MRSWLock::writer_unlock`), so with a wait that spins this does not return.
    ///
    /// Fails with `NotEnoughPage` when no page is free; with `NotEnoughProcess` when no slot is
    /// free, in which case the page it took stays allocated.
    pub fn new_process<W: SpinWait>(
        &mut self,
        page_server: &mut RWLock<PageManager>,
        wait: &W,
    ) -> (r: Result<ProcessInfo, KError>)
        requires
            old(self).wf(),
            old(page_server).content().wf(),
        ensures
            final(self).wf(),
            final(page_server).content().wf(),
            old(page_server).content().free_pages().len() == 0 ==> {
                &&& r == Err::<ProcessInfo, KError>(KError::NotEnoughPage)
                &&& final(page_server).content().free_pages() == old(page_server).content().free_pages()
                &&& final(page_server).content().used_pages() == old(page_server).content().used_pages()
                &&& final(self).free_slots() == old(self).free_slots()
            },
            old(page_server).content().free_pages().len() > 0 ==> {
                &&& final(page_server).content().free_pages() == old(page_server).content().free_pages().drop_first()
                &&& final(page_server).content().used_pages() == seq![old(page_server).content().free_pages()[0]] + old(page_server).content().used_pages()
            },
            old(page_server).content().free_pages().len() > 0 && old(self).free_slots().len() == 0 ==> {
                &&& r matches Err(e) && e == KError::NotEnoughProcess
                &&& final(self).free_slots() == old(self).free_slots()
            },
            old(page_server).content().free_pages().len() > 0 && old(self).free_slots().len() > 0 ==> {
                &&& r matches Ok(p) && p@ == (ProcessRecord {
                    pde_paddr: old(page_server).content().free_pages()[0],
                    ..old(self).free_slots()[0]
                })
                &&& final(self).free_slots() == old(self).free_slots().drop_first()
            },
            final(self).used_slots() == old(self).used_slots(),
            r matches Ok(p) ==> is_ram_page(p@.pde_paddr),
            r matches Ok(p) ==> forall|i: int|
                0 <= i < final(self).free_slots().len() ==> #[trigger] final(self).free_slots()[i].pid
                    != p@.pid,
    {
        let pages = page_server.start_write_context(wait);
        let allocated = pages.alloc_ppage();
        page_server.end_write_context(wait);
        let pde: usize = match allocated {
            Ok(p) => p,
            Err(e) => {
                return Err(e);
            },
        };
        let mut pinfo = match self.free.pop_front() {
            Some(p) => p,
            None => {
                return Err(KError::NotEnoughProcess);
            },
        };
        pinfo.pde_paddr = pde;
        proof {
            assert(self.free@ == old(self).free@.drop_first());
            assert(self.free_slots() == old(self).free_slots().drop_first());
            assert forall|i: int| 0 <= i < self.free_slots().len() implies #[trigger] self.free_slots()[i].pid
                != pinfo@.pid by {
                assert(old(self).free_slots()[i + 1] == self.free_slots()[i]);
                assert(old(self).free_slots()[0].pid == pinfo@.pid);
            }
        }
        Ok(pinfo)
    }
}

impl ProcessTrait for ProcessManager {
    type PCB = ProcessInfo;

    open spec fn inv(&self) -> bool {
        self.wf()
    }

    fn init() -> (r: Result<ProcessManager, &'static str>)
        ensures
            r matches Ok(pm) && pm.wf() && pm.free_slots().len() == MAX_PROCESS && pm.used_slots().len() == 0
                && forall|i: int| 0 <= i < MAX_PROCESS ==> initial_slot(#[trigger] pm.free_slots()[i], i),
    {
        ProcessManager::init()
    }

    fn new_process<W: SpinWait>(
        &mut self,
        page_server: &mut RWLock<PageManager>,
        wait: &W,
    ) -> (r: Result<ProcessInfo, KError>)
        ensures
            old(page_server).content().free_pages().len() == 0 ==> {
                &&& r == Err::<ProcessInfo, KError>(KError::NotEnoughPage)
                &&& final(page_server).content().free_pages() == old(page_server).content().free_pages()
                &&& final(page_server).content().used_pages() == old(page_server).content().used_pages()
                &&& final(self).free_slots() == old(self).free_slots()
            },
            old(page_server).content().free_pages().len() > 0 ==> {
                &&& final(page_server).content().free_pages() == old(page_server).content().free_pages().drop_first()
                &&& final(page_server).content().used_pages() == seq![old(page_server).content().free_pages()[0]] + old(page_server).content().used_pages()
            },
            old(page_server).content().free_pages().len() > 0 && old(self).free_slots().len() == 0 ==> {
                &&& r matches Err(e) && e == KError::NotEnoughProcess
                &&& final(self).free_slots() == old(self).free_slots()
            },
            old(page_server).content().free_pages().len() > 0 && old(self).free_slots().len() > 0 ==> {
                &&& r matches Ok(p) && p@ == (ProcessRecord {
                    pde_paddr: old(page_server).content().free_pages()[0],
                    ..old(self).free_slots()[0]
                })
                &&& final(self).free_slots() == old(self).free_slots().drop_first()
            },
            final(self).used_slots() == old(self).used_slots(),
            r matches Ok(p) ==> is_ram_page(p@.pde_paddr),
            r matches Ok(p) ==> forall|i: int|
                0 <= i < final(self).free_slots().len() ==> #[trigger] final(self).free_slots()[i].pid
                    != p@.pid,
    {
        ProcessManager::new_process(self, page_server, wait)
    }
}

} // verus!
