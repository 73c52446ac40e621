use lib::arch::interrupt::{init_hart_context, HartContext, RegisterEnv};
use lib::config::{HART_COUNT, MAX_SYSCALL};
use lib::syscall::{register_handler, SyscallTable};
use lib::utils::Bss;

#[test]
fn syscall_table_starts_empty() {
    let t = SyscallTable::new();
    for n in 0..MAX_SYSCALL {
        assert_eq!(t.handler(n), 0);
    }
}

#[test]
fn registered_handler_is_found() {
    let mut t = SyscallTable::new();
    register_handler(&mut t, 3, 0x8020_1000);
    register_handler(&mut t, MAX_SYSCALL - 1, 0x8020_2000);
    assert_eq!(t.handler(3), 0x8020_1000);
    assert_eq!(t.handler(MAX_SYSCALL - 1), 0x8020_2000);
    assert_eq!(t.handler(2), 0);
    register_handler(&mut t, 3, 0x8020_3000);
    assert_eq!(t.handler(3), 0x8020_3000);
}

#[test]
fn hart_context_records_its_hart() {
    let mut contexts: Vec<HartContext> = (0..HART_COUNT).map(|_| HartContext::zero()).collect();
    init_hart_context(&mut contexts, 2);
    assert_eq!(contexts[2].hart_id(), 2);
    assert_eq!(contexts[1].hart_id(), 0);
    init_hart_context(&mut contexts, 3);
    assert_eq!(contexts[3].hart_id(), 3);
    assert_eq!(contexts[2].hart_id(), 2);
}

#[test]
fn register_frames_start_zero() {
    let _ = RegisterEnv::zero();
    assert_eq!(HartContext::zero().hart_id(), 0);
}
