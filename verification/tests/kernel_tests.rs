use muos::interrupts::{fault_status, handle_pend_sv, FaultStatus, SwitchPlan};
use muos::memory::{mpu_init_static, RegionSetting};
use muos::scheduler::{spawn_thread, Scheduler};
use muos::stack::StackPool;
use muos::syscall::{
    exit_thread, get, scheduler_boot, sleep_ms, syscall_dispatcher, yield_now, SvcRequest,
};
use muos::thread::ThreadState;
use muos::thread::BlockReason;
use muos::{
    boot, boot_handler, exit_handler, init, init_systick, install_syscalls, run_handler,
    sleep_ms_handler, yield_handler, BootStep, Effect, Handler, Init, Launch, SystickOp,
    PENDSV_PRIORITY,
};

const TRAMPOLINE: u32 = 0x1000_0200;
const IDLE_FN: u32 = 0x1000_0300;
const FN_A: u32 = 0x1000_0400;
const FN_B: u32 = 0x1000_0500;

fn kernel() -> Init {
    init(150_000_000, StackPool::new(0x2000_1000).unwrap(), TRAMPOLINE, IDLE_FN)
}

/// Takes a request through the trap gate: dispatch, then run the handler.
fn trap(k: &mut Init, req: SvcRequest) -> Effect {
    let call = syscall_dispatcher(&k.syscalls, req.id, req.a0.unwrap_or(0), req.a1.unwrap_or(0), 0);
    run_handler(call.handler, &mut k.scheduler, call.a1, call.a2, call.a3)
}

fn reload(clock_freq: u32) -> SystickOp {
    init_systick(clock_freq)[1]
}

#[test]
fn systick_reload_is_the_cycles_per_tick_less_one() {
    assert_eq!(reload(150_000_000), SystickOp::SetReload(1_499_999));
    assert_eq!(reload(12_000_000), SystickOp::SetReload(119_999));
    assert_eq!(reload(100), SystickOp::SetReload(0));
    assert_eq!(reload(199), SystickOp::SetReload(0));
    assert_eq!(reload(200), SystickOp::SetReload(1));
    assert_eq!(reload(429_496_729), SystickOp::SetReload(4_294_966));
}

#[test]
fn systick_is_set_up_from_the_core_clock_and_started_last() {
    assert_eq!(
        init_systick(150_000_000),
        [
            SystickOp::ClockFromCore,
            SystickOp::SetReload(1_499_999),
            SystickOp::ClearCurrent,
            SystickOp::EnableInterrupt,
            SystickOp::EnableCounter,
        ]
    );
}

#[test]
fn init_sets_up_timer_scheduler_and_handlers() {
    let k = kernel();
    assert_eq!(k.pendsv_priority, 0xFF);
    assert_eq!(PENDSV_PRIORITY, 0xFF);
    assert_eq!(k.systick, init_systick(150_000_000));
    assert_eq!(k.systick[1], SystickOp::SetReload(1_499_999));
    assert_eq!(k.idle.slot, 0);
    assert_eq!(k.idle.stack.addr, 0x2000_13C0);
    assert_eq!(k.idle.stack.words[8], IDLE_FN);
    assert_eq!(k.scheduler.idle_thread_id, Some(0));
    assert_eq!(k.scheduler.current_thread_id, None);
    assert_eq!(k.scheduler.tick_count, 0);
    assert_eq!(k.scheduler.threads[0].unwrap().state, ThreadState::Ready);
    assert_eq!(k.scheduler.threads[0].unwrap().fn_addr, IDLE_FN);
    assert_eq!(k.scheduler.threads[1], None);
    assert_eq!(get(&k.syscalls, 0), Some(Handler::Boot));
    assert_eq!(get(&k.syscalls, 1), Some(Handler::Yield));
    assert_eq!(get(&k.syscalls, 2), Some(Handler::SleepMs));
    assert_eq!(get(&k.syscalls, 3), Some(Handler::Exit));
    for id in 4..32 {
        assert_eq!(get(&k.syscalls, id), None);
    }
}

#[test]
fn install_syscalls_replaces_earlier_bindings() {
    let mut k = kernel();
    muos::syscall::register(&mut k.syscalls, 1, Handler::Exit);
    muos::syscall::register(&mut k.syscalls, 9, Handler::Yield);
    install_syscalls(&mut k.syscalls);
    assert_eq!(get(&k.syscalls, 1), Some(Handler::Yield));
    assert_eq!(get(&k.syscalls, 9), Some(Handler::Yield));
}

#[test]
fn boot_programs_the_mpu_then_traps() {
    let plan = boot();
    let mpu = mpu_init_static();
    for i in 0..8 {
        assert_eq!(plan[i], BootStep::Mpu(mpu[i]));
    }
    assert_eq!(plan[8], BootStep::EnableInterrupts);
    assert_eq!(plan[9], BootStep::Trap(scheduler_boot()));
    assert_eq!(plan[9], BootStep::Trap(SvcRequest { id: 0, a0: None, a1: None }));
}

#[test]
fn boot_handler_launches_the_current_thread() {
    let mut k = kernel();
    spawn_thread(&mut k.scheduler, FN_A);
    let before = k.scheduler.threads;
    let launch = boot_handler(&mut k.scheduler);
    assert_eq!(
        launch,
        Launch {
            region: RegionSetting { rnr: 2, rbar: 0x2000_1403, rlar: 0x2000_17E1 },
            psp: 0x2000_17E0,
            control: 0x3,
            exc_return: 0xFFFF_FFFD,
        }
    );
    assert_eq!(k.scheduler.threads, before);
    assert_eq!(k.scheduler.current_thread_id, Some(1));
}

#[test]
fn launch_stack_pointer_is_the_exception_frame_of_the_initial_stack() {
    let mut k = kernel();
    let a = spawn_thread(&mut k.scheduler, FN_A);
    let launch = boot_handler(&mut k.scheduler);
    assert_eq!(launch.psp, a.stack.addr + 8 * 4);
    let frame = &a.stack.words[8..16];
    assert_eq!(frame[0], FN_A);
    assert_eq!(frame[5], launch.exc_return);
    assert_eq!(frame[6], TRAMPOLINE | 1);
    assert_eq!(frame[7], 0x0100_0000);
}

#[test]
fn handlers_pend_a_switch() {
    let mut k = kernel();
    spawn_thread(&mut k.scheduler, FN_A);
    assert_eq!(yield_handler(), Effect::PendSwitch);
    assert_eq!(sleep_ms_handler(&mut k.scheduler, 50), Effect::PendSwitch);
    assert_eq!(
        k.scheduler.threads[1].unwrap().state,
        ThreadState::Blocked(BlockReason::Sleep(50))
    );
    assert_eq!(exit_handler(&mut k.scheduler), Effect::PendSwitch);
    assert_eq!(k.scheduler.threads[1].unwrap().state, ThreadState::Exited);
}

#[test]
fn trap_runs_the_handler_of_the_request() {
    let mut k = kernel();
    spawn_thread(&mut k.scheduler, FN_A);
    spawn_thread(&mut k.scheduler, FN_B);
    // boot
    match trap(&mut k, scheduler_boot()) {
        Effect::Launch(launch) => {
            assert_eq!(launch.psp, 0x2000_17E0);
            assert_eq!(launch.control, 0x3);
            assert_eq!(launch.exc_return, 0xFFFF_FFFD);
            assert_eq!(launch.region.rnr, 2);
        }
        Effect::PendSwitch => panic!("boot must launch"),
    }
    // yield leaves the thread as it is
    let before = k.scheduler.threads;
    assert_eq!(trap(&mut k, yield_now()), Effect::PendSwitch);
    assert_eq!(k.scheduler.threads, before);
    // sleep blocks the caller
    assert_eq!(trap(&mut k, sleep_ms(50)), Effect::PendSwitch);
    assert_eq!(
        k.scheduler.threads[1].unwrap().state,
        ThreadState::Blocked(BlockReason::Sleep(50))
    );
    assert_eq!(k.scheduler.threads[2], before[2]);
    // exit marks the caller
    handle_pend_sv(&mut k.scheduler).unwrap();
    assert_eq!(trap(&mut k, exit_thread()), Effect::PendSwitch);
    assert_eq!(k.scheduler.threads[2].unwrap().state, ThreadState::Exited);
}

#[test]
fn yield_needs_no_current_thread() {
    let mut k = kernel();
    let before = k.scheduler.threads;
    assert_eq!(trap(&mut k, yield_now()), Effect::PendSwitch);
    assert_eq!(k.scheduler.threads, before);
    assert_eq!(k.scheduler.current_thread_id, None);
}

#[test]
fn run_handler_ignores_the_unused_arguments() {
    let mut k = kernel();
    spawn_thread(&mut k.scheduler, FN_A);
    assert_eq!(
        run_handler(Handler::SleepMs, &mut k.scheduler, 70, 1234, 5678),
        Effect::PendSwitch
    );
    assert_eq!(
        k.scheduler.threads[1].unwrap().state,
        ThreadState::Blocked(BlockReason::Sleep(70))
    );
    let before = k.scheduler.threads;
    assert_eq!(run_handler(Handler::Yield, &mut k.scheduler, 9, 9, 9), Effect::PendSwitch);
    assert_eq!(k.scheduler.threads, before);
}

#[test]
fn pending_switch_plans_the_region_of_the_next_stack() {
    let mut k = kernel();
    spawn_thread(&mut k.scheduler, FN_A);
    spawn_thread(&mut k.scheduler, FN_B);
    assert_eq!(
        handle_pend_sv(&mut k.scheduler),
        Some(SwitchPlan {
            prev: 1,
            next: 2,
            region: RegionSetting { rnr: 2, rbar: 0x2000_1803, rlar: 0x2000_1BE1 },
            exc_return: 0xFFFF_FFFD,
        })
    );
    assert_eq!(k.scheduler.current_thread_id, Some(2));
    assert_eq!(
        handle_pend_sv(&mut k.scheduler),
        Some(SwitchPlan {
            prev: 2,
            next: 1,
            region: RegionSetting { rnr: 2, rbar: 0x2000_1403, rlar: 0x2000_17E1 },
            exc_return: 0xFFFF_FFFD,
        })
    );
}

#[test]
fn pending_switch_on_a_pool_off_the_granule_covers_the_next_stack() {
    let mut k = init(150_000_000, StackPool::new(0x2000_0008).unwrap(), TRAMPOLINE, IDLE_FN);
    spawn_thread(&mut k.scheduler, FN_A);
    spawn_thread(&mut k.scheduler, FN_B);
    // the stack of slot 2 is 0x2000_0808 ..= 0x2000_0C07
    assert_eq!(
        handle_pend_sv(&mut k.scheduler),
        Some(SwitchPlan {
            prev: 1,
            next: 2,
            region: RegionSetting { rnr: 2, rbar: 0x2000_0803, rlar: 0x2000_0C01 },
            exc_return: 0xFFFF_FFFD,
        })
    );
    // the launch of slot 1, whose stack is 0x2000_0408 ..= 0x2000_0807
    handle_pend_sv(&mut k.scheduler).unwrap();
    let launch = boot_handler(&mut k.scheduler);
    assert_eq!(launch.region, RegionSetting { rnr: 2, rbar: 0x2000_0403, rlar: 0x2000_0801 });
    assert_eq!(launch.psp, 0x2000_0808 - 32);
}

#[test]
fn pending_switch_without_another_thread_does_nothing() {
    let mut k = kernel();
    spawn_thread(&mut k.scheduler, FN_A);
    k.scheduler.syscall_sleep_ms(100);
    let plan = handle_pend_sv(&mut k.scheduler).unwrap();
    assert_eq!((plan.prev, plan.next), (1, 0));
    assert_eq!(plan.region, RegionSetting { rnr: 2, rbar: 0x2000_1003, rlar: 0x2000_13E1 });
    let before = k.scheduler.threads;
    assert_eq!(handle_pend_sv(&mut k.scheduler), None);
    assert_eq!(k.scheduler.threads, before);
    assert_eq!(k.scheduler.current_thread_id, Some(0));
}

#[test]
fn sleep_then_tick_then_switch_through_the_handlers() {
    let mut k = kernel();
    spawn_thread(&mut k.scheduler, FN_A);
    assert_eq!(trap(&mut k, sleep_ms(20)), Effect::PendSwitch);
    assert_eq!(handle_pend_sv(&mut k.scheduler).map(|p| (p.prev, p.next)), Some((1, 0)));
    k.scheduler.systick();
    assert_eq!(handle_pend_sv(&mut k.scheduler), None);
    k.scheduler.systick();
    assert_eq!(handle_pend_sv(&mut k.scheduler).map(|p| (p.prev, p.next)), Some((0, 1)));
    assert_eq!(k.scheduler.threads[1].unwrap().state, ThreadState::Running);
}

#[test]
fn fault_status_reads_the_address_valid_bits() {
    assert_eq!(fault_status(0), FaultStatus { mmfar_valid: false, bfar_valid: false });
    assert_eq!(fault_status(0x80), FaultStatus { mmfar_valid: true, bfar_valid: false });
    assert_eq!(fault_status(0x8000), FaultStatus { mmfar_valid: false, bfar_valid: true });
    assert_eq!(fault_status(0x8080), FaultStatus { mmfar_valid: true, bfar_valid: true });
    assert_eq!(fault_status(0xFFFF_7F7F), FaultStatus { mmfar_valid: false, bfar_valid: false });
    assert_eq!(fault_status(0x0000_0082), FaultStatus { mmfar_valid: true, bfar_valid: false });
}
