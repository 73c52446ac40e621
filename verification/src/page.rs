//! Translation between kernel virtual addresses and physical addresses.
use vstd::prelude::*;

verus! {

/// The bits of an address that carry the physical location.
pub const PADDR_MASK: u64 = 0x0000_0000_ffff_ffff;

/// The bits that mark an address as a kernel virtual address.
pub const KADDR_PRED: u64 = 0xffff_ffff_0000_0000;

/// Physical address of a kernel virtual address: its low 32 bits.
pub fn paddr(kvaddr: u64) -> (r: u64)
    ensures
        r == kvaddr & PADDR_MASK,
        r == kvaddr % 0x1_0000_0000,
{
    let r: u64 = kvaddr & PADDR_MASK;
    assert(kvaddr & 0x0000_0000_ffff_ffffu64 == kvaddr % 0x1_0000_0000) by (bit_vector);
    r
}

/// Kernel virtual address of a physical address: all high 32 bits set.
pub fn kaddr(paddr: u64) -> (r: u64)
    ensures
        r == paddr | KADDR_PRED,
        paddr < 0x1_0000_0000 ==> r == paddr + 0xffff_ffff_0000_0000,
{
    let r: u64 = paddr | KADDR_PRED;
    assert(paddr < 0x1_0000_0000 ==> paddr | 0xffff_ffff_0000_0000u64 == paddr + 0xffff_ffff_0000_0000u64) by (bit_vector);
    r
}

/// Taking the kernel address of a physical address below 4 GiB and then its physical address
/// gives the physical address back.
pub proof fn lemma_paddr_of_kaddr(p: u64)
    requires
        p < 0x1_0000_0000,
    ensures
        (p | KADDR_PRED) & PADDR_MASK == p,
{
    assert((p | 0xffff_ffff_0000_0000u64) & 0x0000_0000_ffff_ffffu64 == p) by (bit_vector)
        requires
            p < 0x1_0000_0000u64,
    ;
}

/// Taking the physical address of a kernel address (one with all high 32 bits set) and then
/// its kernel address gives the kernel address back.
pub proof fn lemma_kaddr_of_paddr(k: u64)
    requires
        k & KADDR_PRED == KADDR_PRED,
    ensures
        (k & PADDR_MASK) | KADDR_PRED == k,
{
    assert((k & 0x0000_0000_ffff_ffffu64) | 0xffff_ffff_0000_0000u64 == k) by (bit_vector)
        requires
            k & 0xffff_ffff_0000_0000u64 == 0xffff_ffff_0000_0000u64,
    ;
}

} // verus!
