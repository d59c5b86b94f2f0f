use muos::syscall::numbers::{EXIT_THREAD, MAX_SYSCALL_ID, SCHEDULER_BOOT, SLEEP_MS, YIELD_NOW};
use muos::syscall::{
    exit_thread, get, register, scheduler_boot, sleep_ms, syscall0, syscall1, syscall2,
    syscall_dispatcher, yield_now, SvcRequest, SyscallTable,
};

#[test]
fn syscall_numbers() {
    assert_eq!(MAX_SYSCALL_ID, 32);
    assert_eq!(SCHEDULER_BOOT, 0);
    assert_eq!(YIELD_NOW, 1);
    assert_eq!(SLEEP_MS, 2);
    assert_eq!(EXIT_THREAD, 3);
}

#[test]
fn new_table_has_no_handler() {
    let table: SyscallTable<u32> = SyscallTable::new();
    for id in 0..MAX_SYSCALL_ID {
        assert_eq!(get(&table, id), None);
    }
}

#[test]
fn register_then_get() {
    let mut table: SyscallTable<u32> = SyscallTable::new();
    register(&mut table, 5, 0x1000_0500);
    assert_eq!(get(&table, 5), Some(0x1000_0500));
    assert_eq!(get(&table, 4), None);
    assert_eq!(get(&table, 6), None);
}

#[test]
fn register_first_and_last_id() {
    let mut table: SyscallTable<u32> = SyscallTable::new();
    register(&mut table, 0, 10);
    register(&mut table, MAX_SYSCALL_ID - 1, 20);
    assert_eq!(get(&table, 0), Some(10));
    assert_eq!(get(&table, 31), Some(20));
}

#[test]
fn get_past_the_table_is_none() {
    let mut table: SyscallTable<u32> = SyscallTable::new();
    register(&mut table, 31, 20);
    assert_eq!(get(&table, MAX_SYSCALL_ID), None);
    assert_eq!(get(&table, MAX_SYSCALL_ID + 1), None);
    assert_eq!(get(&table, usize::MAX), None);
}

#[test]
fn registering_twice_keeps_the_second_handler() {
    let mut twice: SyscallTable<u32> = SyscallTable::new();
    register(&mut twice, 7, 111);
    register(&mut twice, 7, 222);
    let mut once: SyscallTable<u32> = SyscallTable::new();
    register(&mut once, 7, 222);
    assert_eq!(get(&twice, 7), Some(222));
    assert_eq!(twice.handlers, once.handlers);
}

#[test]
fn registering_leaves_other_ids_alone() {
    let mut table: SyscallTable<u32> = SyscallTable::new();
    register(&mut table, 1, 11);
    register(&mut table, 2, 22);
    register(&mut table, 1, 33);
    assert_eq!(get(&table, 1), Some(33));
    assert_eq!(get(&table, 2), Some(22));
}

#[test]
fn requests_carry_the_id_and_the_arguments() {
    assert_eq!(syscall0(9), SvcRequest { id: 9, a0: None, a1: None });
    assert_eq!(syscall1(9, 4), SvcRequest { id: 9, a0: Some(4), a1: None });
    assert_eq!(syscall2(9, 4, 5), SvcRequest { id: 9, a0: Some(4), a1: Some(5) });
}

#[test]
fn invokers_build_their_requests() {
    assert_eq!(scheduler_boot(), SvcRequest { id: 0, a0: None, a1: None });
    assert_eq!(yield_now(), SvcRequest { id: 1, a0: None, a1: None });
    assert_eq!(sleep_ms(50), SvcRequest { id: 2, a0: Some(50), a1: None });
    assert_eq!(sleep_ms(0), SvcRequest { id: 2, a0: Some(0), a1: None });
    assert_eq!(
        sleep_ms(u32::MAX),
        SvcRequest { id: 2, a0: Some(0xFFFF_FFFF), a1: None }
    );
    assert_eq!(exit_thread(), SvcRequest { id: 3, a0: None, a1: None });
}

#[test]
fn dispatcher_resolves_the_handler_and_passes_the_arguments() {
    let mut table: SyscallTable<u32> = SyscallTable::new();
    register(&mut table, 2, 0xAA);
    register(&mut table, 3, 0xBB);
    let call = syscall_dispatcher(&table, 2, 50, 60, 70);
    assert_eq!(call.handler, 0xAA);
    assert_eq!((call.a1, call.a2, call.a3), (50, 60, 70));
    let call = syscall_dispatcher(&table, 3, 1, 2, 3);
    assert_eq!(call.handler, 0xBB);
    assert_eq!((call.a1, call.a2, call.a3), (1, 2, 3));
}

#[test]
fn dispatcher_sees_the_latest_registration() {
    let mut table: SyscallTable<u32> = SyscallTable::new();
    register(&mut table, 2, 0xAA);
    register(&mut table, 2, 0xCC);
    assert_eq!(syscall_dispatcher(&table, 2, 0, 0, 0).handler, 0xCC);
}
