//! The physical page manager and the interface the MMU code uses to obtain pages.
use std::collections::VecDeque;
use vstd::prelude::*;
use crate::arch::mem::{PhysMem, MEM_START, MEM_END};
use crate::utils::kerror::KError;
use crate::kserver::MemoryTrait;

verus! {

broadcast use vstd::std_specs::vecdeque::group_vec_dequeue_axioms;

/// A source of physical pages for page-table directories.
///
/// `result_at(k)` is what the allocator's `k`-th call from now returns: a page address, or the
/// error the allocator reports.
pub trait PageAlloc {
    /// The allocator's own well-formedness.
    spec fn inv(&self) -> bool;

    /// What the `k`-th call of `alloc_page` from now returns.
    spec fn result_at(&self, k: nat) -> Result<usize, KError>;

    /// Takes the next page, or reports why there is none.
    fn alloc_page(&mut self) -> (r: Result<usize, KError>)
        requires
            old(self).inv(),
        ensures
            final(self).inv(),
            r == old(self).result_at(0),
            forall|k: nat| #[trigger] final(self).result_at(k) == old(self).result_at(k + 1),
    ;
}

/// A paging scheme: how virtual addresses are translated through page directories.
pub trait PageSystem {
    /// log2 of the page size.
    const PAGE_SHIFT: usize;

    /// Finds the page-table entry that maps `vaddr` under the directory at `pde`,
    /// allocating the missing directories from `page_alloc`.
    fn walk_pagedir_alloc<A: PageAlloc>(
        &mut self,
        mem: &mut PhysMem,
        pde: u64,
        vaddr: usize,
        page_alloc: &mut A,
    ) -> (r: Result<u64, KError>)
        requires
            old(page_alloc).inv(),
        ensures
            final(page_alloc).inv(),
    ;
}

/// Bytes in a physical page.
pub const PAGE_SIZE: usize = 4096;

/// Number of physical pages of RAM.
pub const PPAGE_NUM: usize = 0x40000;

/// Address of the physical page with index `index` (counted from the start of RAM).
pub open spec fn ppage_addr(index: int) -> int {
    MEM_START + index * PAGE_SIZE
}

/// Whether `paddr` is the address of a page of RAM.
pub open spec fn is_ram_page(paddr: usize) -> bool {
    &&& MEM_START <= paddr < MEM_END
    &&& paddr % PAGE_SIZE == 0
}

/// Index of the first page that lies wholly past `kernel_end_addr`: the address divided by the
/// page size, rounded up.
pub open spec fn user_start_ppn(kernel_end_addr: usize) -> int {
    (kernel_end_addr as int + PAGE_SIZE - 1) / (PAGE_SIZE as int)
}

/// The first free page index is the kernel end divided by the page size, rounded up: no page
/// from it on starts below the kernel end, and the page before it does.
pub proof fn lemma_user_start_ppn(kernel_end_addr: usize)
    ensures
        user_start_ppn(kernel_end_addr) >= 0,
        user_start_ppn(kernel_end_addr) * 4096 >= kernel_end_addr,
        (user_start_ppn(kernel_end_addr) - 1) * 4096 < kernel_end_addr,
        kernel_end_addr % 4096 == 0 ==> user_start_ppn(kernel_end_addr) * 4096 == kernel_end_addr,
{
    let k = kernel_end_addr as int;
    let q = user_start_ppn(kernel_end_addr);
    assert(q == (k + 4095) / 4096);
    assert(q * 4096 >= k && (q - 1) * 4096 < k && q >= 0) by (nonlinear_arith)
        requires
            q == (k + 4095) / 4096,
            k >= 0,
    ;
    if k % 4096 == 0 {
        assert(q * 4096 == k) by (nonlinear_arith)
            requires
                q == (k + 4095) / 4096,
                k % 4096 == 0,
                k >= 0,
        ;
    }
}

/// The pages that start out free: those with an index from `first` up to `PPAGE_NUM`, in
/// ascending order (none when `first` is past the end).
pub open spec fn initial_free_pages(first: int) -> Seq<usize> {
    Seq::new(
        if first < PPAGE_NUM { (PPAGE_NUM - first) as nat } else { 0 },
        |i: int| ppage_addr(first + i) as usize,
    )
}

/// Bookkeeping of one physical page.
struct PPageInfo {
    paddr: usize,
    used_count: u8,
}

spec fn paddrs(s: Seq<PPageInfo>) -> Seq<usize> {
    s.map_values(|p: PPageInfo| p.paddr)
}

spec fn entries(s: Seq<PPageInfo>) -> Seq<(usize, u8)> {
    s.map_values(|p: PPageInfo| (p.paddr, p.used_count))
}

/// The physical page manager: a list of free pages, handed out from its front, and a list of
/// pages in use, most recently allocated first.
pub struct PageManager {
    free: VecDeque<PPageInfo>,
    used: VecDeque<PPageInfo>,
}

impl PageManager {
    /// Addresses of the free pages, in the order they will be handed out.
    pub closed spec fn free_pages(&self) -> Seq<usize> {
        paddrs(self.free@)
    }

    /// Addresses of the pages in use, most recently allocated first.
    pub closed spec fn used_pages(&self) -> Seq<usize> {
        paddrs(self.used@)
    }

    /// The free pages with their use counts, in the order they will be handed out.
    pub closed spec fn free_entries(&self) -> Seq<(usize, u8)> {
        entries(self.free@)
    }

    /// The pages in use with their use counts, most recently allocated first.
    pub closed spec fn used_entries(&self) -> Seq<(usize, u8)> {
        entries(self.used@)
    }

    /// Every page is a page of RAM, no page is listed twice, free pages have a use count of 0
    /// and pages in use a count of 1.
    pub closed spec fn wf(&self) -> bool {
        &&& (self.free_pages() + self.used_pages()).no_duplicates()
        &&& forall|i: int| 0 <= i < self.free@.len() ==> #[trigger] self.free@[i].used_count == 0
        &&& forall|i: int| 0 <= i < self.used@.len() ==> #[trigger] self.used@[i].used_count == 1
        &&& forall|i: int|
            0 <= i < self.free@.len() ==> is_ram_page(#[trigger] self.free@[i].paddr)
        &&& forall|i: int|
            0 <= i < self.used@.len() ==> is_ram_page(#[trigger] self.used@[i].paddr)
    }

    /// Sets up the manager with no page in use and, free in ascending order, the pages whose index
    /// (counted from `MEM_START`) is at least `kernel_end_addr` divided by the page size, rounded
    /// up. The index is compared with the address as it is, so a kernel end given as a physical
    /// address inside RAM leaves no page free.
    pub fn init(kernel_end_addr: usize) -> (r: Result<PageManager, &'static str>)
        ensures
            r matches Ok(pm) && pm.wf() && pm.free_pages() == initial_free_pages(
                user_start_ppn(kernel_end_addr),
            ) && pm.used_pages() == Seq::<usize>::empty() && pm.free_entries() == initial_free_pages(
                user_start_ppn(kernel_end_addr),
            ).map_values(|a: usize| (a, 0u8)) && pm.used_entries() == Seq::<(usize, u8)>::empty(),
    {
        proof {
            assert(kernel_end_addr >> 12 == kernel_end_addr / 4096) by (bit_vector);
        }
        let mut first_user_ppn: usize = kernel_end_addr >> 12;
        if first_user_ppn << 12 != kernel_end_addr {
            first_user_ppn += 1;
        }
        proof {
            assert((kernel_end_addr >> 12) << 12 == kernel_end_addr - kernel_end_addr % 4096)
                by (bit_vector);
            assert(first_user_ppn == user_start_ppn(kernel_end_addr));
        }
        let ghost first = first_user_ppn as int;
        let mut free: VecDeque<PPageInfo> = VecDeque::new();
        let mut index: usize = first_user_ppn;
        while index < PPAGE_NUM
            invariant
                first == user_start_ppn(kernel_end_addr),
                first <= index,
                first < PPAGE_NUM ==> index <= PPAGE_NUM,
                first >= PPAGE_NUM ==> index == first,
                free@.len() == index - first,
                forall|i: int|
                    0 <= i < free@.len() ==> (#[trigger] free@[i]).paddr == ppage_addr(first + i)
                        && free@[i].used_count == 0,
            decreases PPAGE_NUM - index,
        {
            assert(index << 12 == index * 4096) by (bit_vector)
                requires
                    index < 0x40000,
            ;
            free.push_back(PPageInfo { paddr: MEM_START + (index << 12), used_count: 0 });
            index += 1;
        }
        let ret = PageManager { free, used: VecDeque::new() };
        proof {
            let fp = ret.free_pages();
            let init = initial_free_pages(first);
            assert(fp.len() == init.len());
            assert forall|i: int| 0 <= i < fp.len() implies fp[i] == init[i] by {
                assert(ret.free@[i].paddr == ppage_addr(first + i));
            }
            assert(fp == init);
            assert(ret.free_entries() == init.map_values(|a: usize| (a, 0u8)));
            assert(ret.used_entries() == Seq::<(usize, u8)>::empty());
            assert(ret.used_pages() == Seq::<usize>::empty());
            assert(fp + ret.used_pages() == fp);
            assert forall|i: int, j: int| 0 <= i < j < fp.len() implies fp[i] != fp[j] by {
                assert(ret.free@[i].paddr == ppage_addr(first + i));
                assert(ret.free@[j].paddr == ppage_addr(first + j));
            }
            assert forall|i: int| 0 <= i < ret.free@.len() implies is_ram_page(
                #[trigger] ret.free@[i].paddr,
            ) by {
                let k: int = first + i;
                assert(0 <= k < PPAGE_NUM);
                assert((MEM_START + k * 4096) % 4096 == 0) by (nonlinear_arith)
                    requires
                        0 <= k;
            }
        }
        Ok(ret)
    }

    /// Takes the first free page, records it as in use and returns its address; fails with
    /// `NotEnoughPage` when no page is free.
    pub fn alloc_ppage(&mut self) -> (r: Result<usize, KError>)
        requires
            old(self).wf(),
        ensures
            final(self).wf(),
            old(self).free_pages().len() == 0 ==> r == Err::<usize, KError>(KError::NotEnoughPage)
                && final(self).free_pages() == old(self).free_pages()
                && final(self).used_pages() == old(self).used_pages(),
            old(self).free_pages().len() > 0 ==> r == Ok::<usize, KError>(old(self).free_pages()[0])
                && final(self).free_pages() == old(self).free_pages().drop_first()
                && final(self).used_pages() == seq![old(self).free_pages()[0]] + old(self).used_pages(),
            old(self).free_pages().len() == 0 ==> final(self).free_entries() == old(self).free_entries()
                && final(self).used_entries() == old(self).used_entries(),
            old(self).free_pages().len() > 0 ==> final(self).free_entries() == old(self).free_entries().drop_first()
                && final(self).used_entries() == seq![(old(self).free_pages()[0], 1u8)] + old(self).used_entries(),
            r matches Ok(p) ==> is_ram_page(p) && !final(self).free_pages().contains(p),
    {
        let mut page = match self.free.pop_front() {
            Some(p) => p,
            None => {
                return Err(KError::NotEnoughPage);
            },
        };
        page.used_count = 1;
        let ret: usize = page.paddr;
        self.used.push_front(page);
        proof {
            let of = old(self).free_pages();
            let ou = old(self).used_pages();
            assert(self.free@ == old(self).free@.drop_first());
            assert(self.free_pages() == of.drop_first());
            assert(self.used_pages() == seq![ret] + ou);
            assert(self.free_entries() == old(self).free_entries().drop_first());
            assert(self.used_entries() == seq![(ret, 1u8)] + old(self).used_entries());
            assert(of[0] == ret);
            let all = self.free_pages() + self.used_pages();
            let old_all = of + ou;
            assert forall|i: int, j: int| 0 <= i < j < all.len() implies all[i] != all[j] by {
                let oi: int = if i < of.len() - 1 { i + 1 } else if i == of.len() - 1 { 0 } else { i };
                let oj: int = if j < of.len() - 1 { j + 1 } else if j == of.len() - 1 { 0 } else { j };
                assert(all[i] == old_all[oi]);
                assert(all[j] == old_all[oj]);
            }
            assert(all.no_duplicates());
            assert forall|i: int| 0 <= i < self.free@.len() implies is_ram_page(
                #[trigger] self.free@[i].paddr,
            ) by {
                assert(self.free@[i] == old(self).free@[i + 1]);
            }
            assert forall|i: int| 0 <= i < self.free@.len() implies #[trigger] self.free@[i].used_count == 0 by {
                assert(self.free@[i] == old(self).free@[i + 1]);
            }
            assert forall|i: int| 0 <= i < self.used@.len() implies #[trigger] self.used@[i].used_count == 1 by {
                if i > 0 {
                    assert(self.used@[i] == old(self).used@[i - 1]);
                }
            }
            assert forall|i: int| 0 <= i < self.used@.len() implies is_ram_page(
                #[trigger] self.used@[i].paddr,
            ) by {
                if i > 0 {
                    assert(self.used@[i] == old(self).used@[i - 1]);
                }
            }
            assert(old_all[0] == ret);
            assert forall|i: int| 0 <= i < self.free_pages().len() implies self.free_pages()[i] != ret by {
                assert(old_all[i + 1] == self.free_pages()[i]);
            }
        }
        Ok(ret)
    }
}

/// No page is listed twice: the free pages are distinct, the pages in use are distinct, and no
/// page is both free and in use. So the manager never hands out a page that is already in use.
/// Every page is a page of RAM; a free page has use count 0 and a page in use count 1.
pub proof fn lemma_pages_distinct(pm: &PageManager)
    requires
        pm.wf(),
    ensures
        pm.free_pages().no_duplicates(),
        pm.used_pages().no_duplicates(),
        forall|p: usize| pm.free_pages().contains(p) ==> !pm.used_pages().contains(p),
        forall|i: int| 0 <= i < pm.free_pages().len() ==> is_ram_page(#[trigger] pm.free_pages()[i]),
        forall|i: int| 0 <= i < pm.used_pages().len() ==> is_ram_page(#[trigger] pm.used_pages()[i]),
        pm.free_entries().len() == pm.free_pages().len(),
        pm.used_entries().len() == pm.used_pages().len(),
        forall|i: int|
            0 <= i < pm.free_entries().len() ==> #[trigger] pm.free_entries()[i] == (pm.free_pages()[i], 0u8),
        forall|i: int|
            0 <= i < pm.used_entries().len() ==> #[trigger] pm.used_entries()[i] == (pm.used_pages()[i], 1u8),
{
    let f = pm.free_pages();
    let u = pm.used_pages();
    let all = f + u;
    assert forall|i: int, j: int| 0 <= i < j < f.len() implies f[i] != f[j] by {
        assert(all[i] == f[i] && all[j] == f[j]);
    }
    assert forall|i: int, j: int| 0 <= i < j < u.len() implies u[i] != u[j] by {
        assert(all[f.len() + i] == u[i] && all[f.len() + j] == u[j]);
    }
    assert forall|p: usize| f.contains(p) implies !u.contains(p) by {
        let i: int = choose|i: int| 0 <= i < f.len() && f[i] == p;
        if u.contains(p) {
            let j: int = choose|j: int| 0 <= j < u.len() && u[j] == p;
            assert(all[i] == all[f.len() + j]);
        }
    }
}

impl MemoryTrait for PageManager {
    fn init(kernel_end_addr: usize) -> (r: Result<PageManager, &'static str>)
        ensures
            r matches Ok(pm) && pm.wf() && pm.free_pages() == initial_free_pages(
                user_start_ppn(kernel_end_addr),
            ) && pm.used_pages() == Seq::<usize>::empty() && pm.free_entries() == initial_free_pages(
                user_start_ppn(kernel_end_addr),
            ).map_values(|a: usize| (a, 0u8)) && pm.used_entries() == Seq::<(usize, u8)>::empty(),
    {
        PageManager::init(kernel_end_addr)
    }
}

impl PageAlloc for PageManager {
    open spec fn inv(&self) -> bool {
        self.wf()
    }

    /// The free pages in order, then `NotEnoughPage` for good.
    open spec fn result_at(&self, k: nat) -> Result<usize, KError> {
        if k < self.free_pages().len() {
            Ok(self.free_pages()[k as int])
        } else {
            Err(KError::NotEnoughPage)
        }
    }

    fn alloc_page(&mut self) -> (r: Result<usize, KError>) {
        let r = self.alloc_ppage();
        assert forall|k: nat| #[trigger] self.result_at(k) == old(self).result_at(k + 1) by {
            if old(self).free_pages().len() > 0 && k < self.free_pages().len() {
                assert(self.free_pages()[k as int] == old(self).free_pages()[k + 1int]);
            }
        }
        r
    }
}

} // verus!
