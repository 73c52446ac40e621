//! Build-time limits of the kernel.
use vstd::prelude::*;

verus! {

/// Number of harts of the board.
pub const HART_COUNT: usize = 4;

/// Number of register frames each hart keeps for nested traps.
pub const INTERRUPT_STACK_COUNT: usize = 4;

/// Number of process slots.
pub const MAX_PROCESS: usize = 64;

/// Number of system-call numbers.
pub const MAX_SYSCALL: usize = 64;

} // verus!
