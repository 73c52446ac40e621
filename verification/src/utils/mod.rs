//! Small shared items: the error kind and the zero-value trait.
pub mod kerror;

use vstd::prelude::*;

verus! {

/// Types that have an all-zero value, used for tables that start out cleared.
pub trait Bss: Sized {
    /// The all-zero value of the type.
    fn zero() -> Self;
}

} // verus!
