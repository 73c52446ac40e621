//! Sizes of machine types.
use vstd::prelude::*;

verus! {

/// log2 of the byte size of a machine word (8 bytes on riscv64).
pub const SIZE_SHIFT: u64 = 3;

} // verus!
