//! The RISC-V Sv39 page-table walk.
use vstd::prelude::*;
use crate::arch::mem::{PhysMem, read_word};
use crate::arch::rtype::SIZE_SHIFT;
use crate::kserver::page::{PageAlloc, PageSystem};
use crate::utils::kerror::KError;

verus! {

/// Entry is valid.
pub const VALID_BIT: u64 = 0x1;
/// Page is readable.
pub const READ_BIT: u64 = 0x2;
/// Page is writable.
pub const WRITE_BIT: u64 = 0x4;
/// Page is executable.
pub const EXEC_BIT: u64 = 0x8;
/// Page is accessible in user mode.
pub const USER_BIT: u64 = 0x10;
/// Mapping is global.
pub const GLOBAL_BIT: u64 = 0x20;
/// Page was accessed.
pub const ACCESSED_BIT: u64 = 0x40;
/// Page was written.
pub const DIRTY_BIT: u64 = 0x80;
/// An entry with any of these bits set is a leaf; otherwise it points to a directory.
pub const XWR_BITS: u64 = 0xe;

const PAGE_SHIFT: u64 = 12;
const VPN_0_SHIFT: u64 = 12;
const VPN_1_SHIFT: u64 = 21;
const VPN_2_SHIFT: u64 = 30;
const VPN_0_MASK: u64 = 0x1ff000;
const VPN_1_MASK: u64 = 0x3fe0_0000;
const VPN_2_MASK: u64 = 0x7f_c000_0000;
const PPN_MASK: u64 = 0x003f_ffff_ffff_fc00;
const PPN_SHIFT: u64 = 10;
const PAGE_MASK: u64 = 0x00ff_ffff_ffff_f000;

/// Index of `vaddr` in the directory the walk starts from (address bits 12..21).
pub open spec fn vpn0(vaddr: u64) -> u64 {
    (vaddr & 0x1ff000u64) >> 12u64
}

/// Index of `vaddr` in the second directory of the walk (address bits 21..30).
pub open spec fn vpn1(vaddr: u64) -> u64 {
    (vaddr & 0x3fe0_0000u64) >> 21u64
}

/// Index of `vaddr` in the last directory of the walk (address bits 30..39).
pub open spec fn vpn2(vaddr: u64) -> u64 {
    (vaddr & 0x7f_c000_0000u64) >> 30u64
}

/// The entry that points at the page at `page_addr` with the given flag bits.
pub open spec fn page_entry(page_addr: u64, flags: u64) -> u64 {
    (((page_addr >> 12u64) << 10u64) & 0x003f_ffff_ffff_fc00u64) | flags
}

/// Address of slot `vpn` of the directory that `entry` points at.
pub open spec fn child_entry_addr(entry: u64, vpn: u64) -> u64 {
    ((entry << 2u64) & 0x00ff_ffff_ffff_f000u64) | (vpn << 3u64)
}

/// Whether `entry` has any of the bits of `flags`.
pub open spec fn has_flag(entry: u64, flags: u64) -> bool {
    entry & flags != 0
}

/// What the allocator's `k`-th call from now returns.
pub type AllocResults = spec_fn(nat) -> Result<usize, KError>;

/// Where a walk ends: the memory it leaves, how many times it called the allocator,
/// and the entry address it returns or the error it reports.
pub struct WalkOutcome {
    pub mem: Map<u64, u64>,
    pub taken: nat,
    pub result: Result<u64, KError>,
}

/// One level of the walk: if the entry at `entry_addr` is not valid, call the allocator (its
/// `taken`-th call, answered by `allocs(taken)`) and point the entry at the page it returns.
/// Gives the memory after, the count of calls made, and the allocator's error if it failed.
pub open spec fn ensure_valid(
    mem: Map<u64, u64>,
    allocs: AllocResults,
    taken: nat,
    entry_addr: u64,
) -> (Map<u64, u64>, nat, Result<(), KError>) {
    if has_flag(read_word(mem, entry_addr), VALID_BIT) {
        (mem, taken, Ok(()))
    } else {
        match allocs(taken) {
            Ok(p) => (mem.insert(entry_addr, page_entry(p as u64, VALID_BIT)), taken + 1, Ok(())),
            Err(e) => (mem, taken + 1, Err(e)),
        }
    }
}

/// Address of the entry the walk visits first: slot `vpn0(vaddr)` of the directory at `root`.
pub open spec fn root_entry_addr(root: u64, vaddr: u64) -> u64 {
    root.wrapping_add(vpn0(vaddr) << 3u64)
}

/// The walk of `vaddr` from the directory at `root`, allocating missing directories with an
/// allocator whose successive calls return `allocs(0)`, `allocs(1)`, ... It stops at the first
/// entry with an X, W or R bit, at the third level, or at the first failed allocation, whose
/// error it reports.
///
/// The first directory is indexed by address bits 12..21, the second by bits 21..30 and the
/// third by bits 30..39 (the reverse of the order the Sv39 hardware uses).
pub open spec fn walk(mem: Map<u64, u64>, allocs: AllocResults, root: u64, vaddr: u64) -> WalkOutcome {
    let e0 = root_entry_addr(root, vaddr);
    let (m0, t0, r0) = ensure_valid(mem, allocs, 0, e0);
    if r0 is Err {
        WalkOutcome { mem: m0, taken: t0, result: Err(r0->Err_0) }
    } else if has_flag(read_word(m0, e0), XWR_BITS) {
        WalkOutcome { mem: m0, taken: t0, result: Ok(e0) }
    } else {
        let e1 = child_entry_addr(read_word(m0, e0), vpn1(vaddr));
        let (m1, t1, r1) = ensure_valid(m0, allocs, t0, e1);
        if r1 is Err {
            WalkOutcome { mem: m1, taken: t1, result: Err(r1->Err_0) }
        } else if has_flag(read_word(m1, e1), XWR_BITS) {
            WalkOutcome { mem: m1, taken: t1, result: Ok(e1) }
        } else {
            let e2 = child_entry_addr(read_word(m1, e1), vpn2(vaddr));
            let (m2, t2, r2) = ensure_valid(m1, allocs, t1, e2);
            if r2 is Err {
                WalkOutcome { mem: m2, taken: t2, result: Err(r2->Err_0) }
            } else {
                WalkOutcome { mem: m2, taken: t2, result: Ok(e2) }
            }
        }
    }
}

/// An entry that points at the page at `page_addr` with flags below bit 10: its slot `vpn`
/// lies `vpn` words into that page, and it has a flag of `query` (below bit 10) exactly when
/// `flags` shares a bit with `query`.
pub proof fn lemma_page_entry_fields(page_addr: u64, flags: u64, query: u64, vpn: u64)
    requires
        page_addr % 4096 == 0,
        page_addr < 0x0100_0000_0000_0000,
        flags < 0x400,
        query < 0x400,
        vpn < 512,
    ensures
        has_flag(page_entry(page_addr, flags), query) == (flags & query != 0),
        child_entry_addr(page_entry(page_addr, flags), vpn) == page_addr + vpn * 8,
{
    assert(((((page_addr >> 12u64) << 10u64) & 0x003f_ffff_ffff_fc00u64) | flags) & query
        == flags & query) by (bit_vector)
        requires
            flags < 0x400,
            query < 0x400,
    ;
    assert(((((((page_addr >> 12u64) << 10u64) & 0x003f_ffff_ffff_fc00u64) | flags) << 2u64)
        & 0x00ff_ffff_ffff_f000u64) | (vpn << 3u64) == page_addr + vpn * 8) by (bit_vector)
        requires
            page_addr % 4096 == 0,
            page_addr < 0x0100_0000_0000_0000,
            flags < 0x400,
            vpn < 512,
    ;
}

/// After `set_page` points the entry at `entry_addr` at the page `page_addr` with `flags`
/// (below bit 10), reading that entry back: `child_page(vpn)` gives slot `vpn` of that page,
/// `page_addr + 8 * vpn`, and `check_flag(query)` (for `query` below bit 10) is whether `flags`
/// and `query` share a bit. Neither read changes memory (both take it by shared reference).
pub proof fn lemma_set_page_then_read(
    mem: Map<u64, u64>,
    entry_addr: u64,
    page_addr: u64,
    flags: u64,
    query: u64,
    vpn: u64,
)
    requires
        page_addr % 4096 == 0,
        page_addr < 0x0100_0000_0000_0000,
        flags < 0x400,
        query < 0x400,
        vpn < 512,
    ensures
        child_entry_addr(read_word(mem.insert(entry_addr, page_entry(page_addr, flags)), entry_addr), vpn)
            == page_addr + vpn * 8,
        has_flag(read_word(mem.insert(entry_addr, page_entry(page_addr, flags)), entry_addr), query)
            == (flags & query != 0),
{
    lemma_page_entry_fields(page_addr, flags, query, vpn);
}

/// A freshly pointed directory entry is valid, is not a leaf, and its slot `vpn` lies `vpn`
/// words into the page it points at.
pub proof fn lemma_new_directory_entry(page_addr: u64, vpn: u64)
    requires
        page_addr % 4096 == 0,
        page_addr < 0x0100_0000_0000_0000,
        vpn < 512,
    ensures
        has_flag(page_entry(page_addr, VALID_BIT), VALID_BIT),
        !has_flag(page_entry(page_addr, VALID_BIT), XWR_BITS),
        child_entry_addr(page_entry(page_addr, VALID_BIT), vpn) == page_addr + vpn * 8,
{
    lemma_page_entry_fields(page_addr, VALID_BIT, VALID_BIT, vpn);
    lemma_page_entry_fields(page_addr, VALID_BIT, XWR_BITS, vpn);
    assert(1u64 & 1u64 != 0 && 1u64 & 0xeu64 == 0) by (bit_vector);
}

proof fn lemma_ensure_valid(mem: Map<u64, u64>, allocs: AllocResults, taken: nat, entry_addr: u64)
    ensures
        ({
            let (m, t, r) = ensure_valid(mem, allocs, taken, entry_addr);
            &&& r is Ok ==> has_flag(read_word(m, entry_addr), VALID_BIT)
            &&& forall|b: u64|
                has_flag(read_word(mem, b), VALID_BIT) ==> #[trigger] read_word(m, b) == read_word(mem, b)
            &&& taken <= t <= taken + 1
            &&& t == taken ==> m == mem && r is Ok
            &&& (t == taken + 1 && r is Ok) ==> allocs(taken) is Ok
            &&& r matches Err(e) ==> t == taken + 1 && allocs(taken) == Err::<usize, KError>(e) && m == mem
        }),
{
    let p: u64 = match allocs(taken) {
        Ok(q) => q as u64,
        Err(_) => 0,
    };
    assert(((((p >> 12u64) << 10u64) & 0x003f_ffff_ffff_fc00u64) | 1u64) & 1u64 != 0)
        by (bit_vector);
}

/// A walk that returns an entry address returns the address of a valid entry.
pub proof fn lemma_walk_result_is_valid(mem: Map<u64, u64>, allocs: AllocResults, root: u64, vaddr: u64)
    ensures
        walk(mem, allocs, root, vaddr).result matches Ok(a) ==> has_flag(
            read_word(walk(mem, allocs, root, vaddr).mem, a),
            VALID_BIT,
        ),
{
    let e0 = root_entry_addr(root, vaddr);
    lemma_ensure_valid(mem, allocs, 0, e0);
    let (m0, t0, r0) = ensure_valid(mem, allocs, 0, e0);
    if r0 is Ok && !has_flag(read_word(m0, e0), XWR_BITS) {
        let e1 = child_entry_addr(read_word(m0, e0), vpn1(vaddr));
        lemma_ensure_valid(m0, allocs, t0, e1);
        let (m1, t1, r1) = ensure_valid(m0, allocs, t0, e1);
        if r1 is Ok && !has_flag(read_word(m1, e1), XWR_BITS) {
            let e2 = child_entry_addr(read_word(m1, e1), vpn2(vaddr));
            lemma_ensure_valid(m1, allocs, t1, e2);
        }
    }
}

/// A walk never changes an entry that was already valid.
pub proof fn lemma_walk_keeps_valid_entries(
    mem: Map<u64, u64>,
    allocs: AllocResults,
    root: u64,
    vaddr: u64,
    addr: u64,
)
    requires
        has_flag(read_word(mem, addr), VALID_BIT),
    ensures
        read_word(walk(mem, allocs, root, vaddr).mem, addr) == read_word(mem, addr),
{
    let e0 = root_entry_addr(root, vaddr);
    lemma_ensure_valid(mem, allocs, 0, e0);
    let (m0, t0, r0) = ensure_valid(mem, allocs, 0, e0);
    if r0 is Ok && !has_flag(read_word(m0, e0), XWR_BITS) {
        let e1 = child_entry_addr(read_word(m0, e0), vpn1(vaddr));
        lemma_ensure_valid(m0, allocs, t0, e1);
        let (m1, t1, r1) = ensure_valid(m0, allocs, t0, e1);
        if r1 is Ok && !has_flag(read_word(m1, e1), XWR_BITS) {
            let e2 = child_entry_addr(read_word(m1, e1), vpn2(vaddr));
            lemma_ensure_valid(m1, allocs, t1, e2);
        }
    }
}

/// A walk calls the allocator at most three times and leaves memory as it was when it calls
/// it not at all. Every call but a failing last one returned a page; a walk fails only with
/// the error its last allocator call returned.
pub proof fn lemma_walk_page_use(mem: Map<u64, u64>, allocs: AllocResults, root: u64, vaddr: u64)
    ensures
        walk(mem, allocs, root, vaddr).taken <= 3,
        walk(mem, allocs, root, vaddr).taken == 0 ==> walk(mem, allocs, root, vaddr).mem == mem,
        walk(mem, allocs, root, vaddr).result is Ok ==> forall|k: nat|
            k < walk(mem, allocs, root, vaddr).taken ==> #[trigger] allocs(k) is Ok,
        walk(mem, allocs, root, vaddr).result matches Err(e) ==> {
            &&& walk(mem, allocs, root, vaddr).taken >= 1
            &&& allocs((walk(mem, allocs, root, vaddr).taken - 1) as nat) == Err::<usize, KError>(e)
            &&& forall|k: nat| k + 1 < walk(mem, allocs, root, vaddr).taken ==> #[trigger] allocs(k) is Ok
        },
{
    let e0 = root_entry_addr(root, vaddr);
    lemma_ensure_valid(mem, allocs, 0, e0);
    let (m0, t0, r0) = ensure_valid(mem, allocs, 0, e0);
    if r0 is Ok && !has_flag(read_word(m0, e0), XWR_BITS) {
        let e1 = child_entry_addr(read_word(m0, e0), vpn1(vaddr));
        lemma_ensure_valid(m0, allocs, t0, e1);
        let (m1, t1, r1) = ensure_valid(m0, allocs, t0, e1);
        if r1 is Ok && !has_flag(read_word(m1, e1), XWR_BITS) {
            let e2 = child_entry_addr(read_word(m1, e1), vpn2(vaddr));
            lemma_ensure_valid(m1, allocs, t1, e2);
        }
    }
}

/// Walking again after a successful walk finds the same entry, calls no allocator and changes
/// nothing, whatever the allocator would return.
pub proof fn lemma_walk_idempotent(
    mem: Map<u64, u64>,
    allocs: AllocResults,
    root: u64,
    vaddr: u64,
    allocs2: AllocResults,
)
    requires
        walk(mem, allocs, root, vaddr).result is Ok,
    ensures
        walk(walk(mem, allocs, root, vaddr).mem, allocs2, root, vaddr) == (WalkOutcome {
            mem: walk(mem, allocs, root, vaddr).mem,
            taken: 0,
            result: walk(mem, allocs, root, vaddr).result,
        }),
{
    let e0 = root_entry_addr(root, vaddr);
    lemma_ensure_valid(mem, allocs, 0, e0);
    let (m0, t0, r0) = ensure_valid(mem, allocs, 0, e0);
    if !has_flag(read_word(m0, e0), XWR_BITS) {
        let e1 = child_entry_addr(read_word(m0, e0), vpn1(vaddr));
        lemma_ensure_valid(m0, allocs, t0, e1);
        let (m1, t1, r1) = ensure_valid(m0, allocs, t0, e1);
        if !has_flag(read_word(m1, e1), XWR_BITS) {
            let e2 = child_entry_addr(read_word(m1, e1), vpn2(vaddr));
            lemma_ensure_valid(m1, allocs, t1, e2);
            let (m2, t2, r2) = ensure_valid(m1, allocs, t1, e2);
            assert(read_word(m2, e0) == read_word(m0, e0));
            assert(read_word(m2, e1) == read_word(m1, e1));
        } else {
            assert(read_word(m1, e0) == read_word(m0, e0));
        }
    }
}

/// The walk's indices are the three nine-bit fields of the address above the page offset:
/// the first directory is indexed by bits 12..21, the second by bits 21..30 and the third by
/// bits 30..39, each taken whole.
pub proof fn lemma_vpn_indices(vaddr: u64)
    ensures
        vpn0(vaddr) == (vaddr / 0x1000) % 512,
        vpn1(vaddr) == (vaddr / 0x20_0000) % 512,
        vpn2(vaddr) == (vaddr / 0x4000_0000) % 512,
{
    assert((vaddr & 0x1ff000u64) >> 12u64 == (vaddr / 0x1000u64) % 512u64) by (bit_vector);
    assert((vaddr & 0x3fe0_0000u64) >> 21u64 == (vaddr / 0x20_0000u64) % 512u64) by (bit_vector);
    assert((vaddr & 0x7f_c000_0000u64) >> 30u64 == (vaddr / 0x4000_0000u64) % 512u64) by (bit_vector);
}

/// The three entry addresses of a walk of `vaddr` from `root` whose second and third
/// directories are the pages `s0` and `s1`, stated by address bits: slot bits 12..21 of the root
/// directory, slot bits 21..30 of `s0`, slot bits 30..39 of `s1`.
pub open spec fn e_addrs_by_index(root: u64, vaddr: u64, s0: u64, s1: u64) -> bool {
    &&& root_entry_addr(root, vaddr) == root.wrapping_add((((vaddr / 0x1000) % 512) * 8) as u64)
    &&& s0 + vpn1(vaddr) * 8 == s0 + ((vaddr / 0x20_0000) % 512) * 8
    &&& s1 + vpn2(vaddr) * 8 == s1 + ((vaddr / 0x4000_0000) % 512) * 8
}

/// On a table where the whole path is missing, and with an allocator that returns three
/// page-aligned pages, the walk builds the path: the first entry points at the first page,
/// slot `vpn1` of that page at the second page, slot `vpn2` of the second page at the third
/// page, and that last slot is what the walk returns.
pub proof fn lemma_walk_builds_fresh_path(mem: Map<u64, u64>, allocs: AllocResults, root: u64, vaddr: u64)
    requires
        forall|k: nat|
            k < 3 ==> ((#[trigger] allocs(k)) matches Ok(p) && (p as u64) % 4096 == 0 && (p as u64)
                < 0x0100_0000_0000_0000),
        !has_flag(read_word(mem, root_entry_addr(root, vaddr)), VALID_BIT),
        !has_flag(read_word(mem, (allocs(0)->Ok_0 as u64 + vpn1(vaddr) * 8) as u64), VALID_BIT),
        !has_flag(read_word(mem, (allocs(1)->Ok_0 as u64 + vpn2(vaddr) * 8) as u64), VALID_BIT),
        root_entry_addr(root, vaddr) != allocs(0)->Ok_0 as u64 + vpn1(vaddr) * 8,
        root_entry_addr(root, vaddr) != allocs(1)->Ok_0 as u64 + vpn2(vaddr) * 8,
        allocs(0)->Ok_0 as u64 + vpn1(vaddr) * 8 != allocs(1)->Ok_0 as u64 + vpn2(vaddr) * 8,
    ensures
        ({
            let s0 = allocs(0)->Ok_0 as u64;
            let s1 = allocs(1)->Ok_0 as u64;
            let s2 = allocs(2)->Ok_0 as u64;
            let e0 = root_entry_addr(root, vaddr);
            let e1 = (s0 + vpn1(vaddr) * 8) as u64;
            let e2 = (s1 + vpn2(vaddr) * 8) as u64;
            walk(mem, allocs, root, vaddr) == (WalkOutcome {
                mem: mem.insert(e0, page_entry(s0, VALID_BIT)).insert(e1, page_entry(s1, VALID_BIT)).insert(
                    e2,
                    page_entry(s2, VALID_BIT),
                ),
                taken: 3,
                result: Ok(e2),
            })
        }),
        e_addrs_by_index(root, vaddr, allocs(0)->Ok_0 as u64, allocs(1)->Ok_0 as u64),
        walk(mem, allocs, root, vaddr).result == Ok::<u64, KError>(
            (allocs(1)->Ok_0 as u64 + ((vaddr / 0x4000_0000) % 512) * 8) as u64,
        ),
{
    lemma_vpn_bounds(vaddr);
    lemma_vpn_indices(vaddr);
    let x: u64 = vpn0(vaddr);
    assert(x << 3u64 == x * 8) by (bit_vector)
        requires
            x < 512,
    ;
    assert(allocs(0) is Ok && allocs(1) is Ok && allocs(2) is Ok);
    let s0 = allocs(0)->Ok_0 as u64;
    let s1 = allocs(1)->Ok_0 as u64;
    let s2 = allocs(2)->Ok_0 as u64;
    lemma_new_directory_entry(s0, vpn1(vaddr));
    lemma_new_directory_entry(s1, vpn2(vaddr));
    lemma_new_directory_entry(s2, 0);
}

/// The Sv39 paging scheme.
pub struct Sv39 {}

/// A page-table entry, known by its physical address.
struct Sv39Entry {
    addr: u64,
}

impl Sv39Entry {
    fn from_ptr(addr: u64) -> (e: Self)
        ensures
            e.addr == addr,
    {
        Sv39Entry { addr }
    }

    /// Points the entry at the page at `page_addr`, with `flags`.
    fn set_page(&self, mem: &mut PhysMem, page_addr: usize, flags: u64)
        ensures
            final(mem)@ == old(mem)@.insert(self.addr, page_entry(page_addr as u64, flags)),
    {
        let ppn: u64 = ((page_addr as u64 >> PAGE_SHIFT) << PPN_SHIFT) & PPN_MASK;
        mem.write(self.addr, ppn | flags);
    }

    /// The entry at slot `vpn` of the directory this entry points at.
    fn child_page(&self, mem: &PhysMem, vpn: u64) -> (c: Sv39Entry)
        requires
            vpn < 512,
        ensures
            c.addr == child_entry_addr(read_word(mem@, self.addr), vpn),
    {
        let entry: u64 = mem.read(self.addr);
        Sv39Entry { addr: ((entry << (PAGE_SHIFT - PPN_SHIFT)) & PAGE_MASK) | (vpn << SIZE_SHIFT) }
    }

    /// Whether the entry has any of the bits of `flags`.
    fn check_flag(&self, mem: &PhysMem, flags: u64) -> (b: bool)
        ensures
            b == has_flag(read_word(mem@, self.addr), flags),
    {
        mem.read(self.addr) & flags != 0
    }
}

proof fn lemma_vpn_bounds(vaddr: u64)
    ensures
        vpn0(vaddr) < 512,
        vpn1(vaddr) < 512,
        vpn2(vaddr) < 512,
{
    assert((vaddr & 0x1ff000u64) >> 12u64 < 512) by (bit_vector);
    assert((vaddr & 0x3fe0_0000u64) >> 21u64 < 512) by (bit_vector);
    assert((vaddr & 0x7f_c000_0000u64) >> 30u64 < 512) by (bit_vector);
}

impl PageSystem for Sv39 {
    const PAGE_SHIFT: usize = 12;

    fn walk_pagedir_alloc<A: PageAlloc>(
        &mut self,
        mem: &mut PhysMem,
        pde: u64,
        vaddr: usize,
        page_alloc: &mut A,
    ) -> (r: Result<u64, KError>)
        ensures
            ({
                let w = walk(old(mem)@, |k: nat| old(page_alloc).result_at(k), pde, vaddr as u64);
                &&& final(mem)@ == w.mem
                &&& r == w.result
                &&& forall|k: nat| #[trigger] final(page_alloc).result_at(k) == old(page_alloc).result_at(k + w.taken)
            }),
    {
        let ghost a0 = *page_alloc;
        let ghost allocs: AllocResults = |k: nat| a0.result_at(k);
        let ghost m = mem@;
        let vaddr: u64 = vaddr as u64;
        proof {
            lemma_vpn_bounds(vaddr);
        }
        let pde = Sv39Entry::from_ptr(pde.wrapping_add(((vaddr & VPN_0_MASK) >> VPN_0_SHIFT) << SIZE_SHIFT));
        let ghost t: nat = 0;
        if !pde.check_flag(mem, VALID_BIT) {
            proof {
                t = 1;
            }
            let p: usize = page_alloc.alloc_page()?;
            pde.set_page(mem, p, VALID_BIT);
        }
        assert(forall|k: nat| #[trigger] page_alloc.result_at(k) == a0.result_at(k + t));
        if pde.check_flag(mem, XWR_BITS) {
            return Ok(pde.addr);
        }
        let ghost m0 = mem@;
        let ghost t0: nat = t;
        let psde = pde.child_page(mem, (vaddr & VPN_1_MASK) >> VPN_1_SHIFT);
        if !psde.check_flag(mem, VALID_BIT) {
            proof {
                t = t0 + 1;
            }
            let p: usize = page_alloc.alloc_page()?;
            psde.set_page(mem, p, VALID_BIT);
        }
        assert(forall|k: nat| #[trigger] page_alloc.result_at(k) == a0.result_at(k + t));
        if psde.check_flag(mem, XWR_BITS) {
            return Ok(psde.addr);
        }
        let ghost t1: nat = t;
        let pte = psde.child_page(mem, (vaddr & VPN_2_MASK) >> VPN_2_SHIFT);
        if !pte.check_flag(mem, VALID_BIT) {
            proof {
                t = t1 + 1;
            }
            let p: usize = page_alloc.alloc_page()?;
            pte.set_page(mem, p, VALID_BIT);
        }
        Ok(pte.addr)
    }
}

} // verus!
