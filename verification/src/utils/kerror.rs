//! Errors that kernel services report.
use vstd::prelude::*;

verus! {

/// Why a kernel service could not be delivered.
#[derive(Clone, Copy, Debug, PartialEq, Eq, Structural)]
pub enum KError {
    /// No free physical page is left.
    NotEnoughPage,
    /// No free process slot is left.
    NotEnoughProcess,
}

} // verus!
