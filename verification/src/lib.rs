//! A verified model of the core of a small RISC-V micro-kernel: the Sv39 page-table walk,
//! the physical page manager, the process table, the SBI error decoding and the locks.
pub mod arch;
pub mod config;
pub mod kserver;
pub mod page;
pub mod syscall;
pub mod utils;

