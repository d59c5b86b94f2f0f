//! Core of a small preemptive multitasking kernel for ARMv8-M microcontrollers:
//! thread records and their initial stack contents, a round-robin scheduler with
//! a sleep queue, the system-call table, and the MPU region encoding.
//!
//! Everything here computes on plain values. The caller owns the hardware: it
//! performs the register writes, the memory writes and the context switch that
//! these functions plan.

use vstd::prelude::*;

pub mod context;
pub mod interrupts;
pub mod invariants;
pub mod memory;
pub mod scheduler;
pub mod stack;
pub mod syscall;
pub mod thread;

use crate::memory::{
    mpu_init_static, mpu_program_thread, stack_region, static_plan, MpuOp, RegionSetting,
};
use crate::scheduler::{init_scheduler, RRScheduler, SchedState, Scheduler, Spawned};
use crate::stack::StackPool;
use crate::syscall::numbers::{
    EXIT_THREAD, MAX_SYSCALL_ID, SCHEDULER_BOOT, SLEEP_MS, YIELD_NOW,
};
use crate::syscall::{register, registered, scheduler_boot, SvcRequest, SyscallTable};
use crate::thread::{ctrl_of, initial_words, ThreadFn, CALLEE_REGS_SIZE, EXC_RETURN};

verus! {

/// Milliseconds between two ticks of the system timer.
pub const SYSTICK_FREQ_MS: u32 = 10;

/// Priority of the context-switch exception: the lowest, so that a switch
/// happens only when no other handler is active.
pub const PENDSV_PRIORITY: u8 = 0xFF;

/// The kernel's system-call handlers.
#[derive(Copy, Clone, PartialEq, Eq, Structural, Debug)]
pub enum Handler {
    Boot,
    Yield,
    SleepMs,
    Exit,
}

/// The launch of the first thread: program `region` for its stack, then load
/// the process stack pointer and CONTROL and leave the exception through
/// `exc_return`.
#[derive(Copy, Clone, PartialEq, Eq, Structural, Debug)]
pub struct Launch {
    pub region: RegionSetting,
    pub psp: u32,
    pub control: u32,
    pub exc_return: u32,
}

/// What the trap gate does on the hardware once a handler has run.
#[derive(Copy, Clone, PartialEq, Eq, Structural, Debug)]
pub enum Effect {
    /// Pend the context-switch exception.
    PendSwitch,
    /// Launch the first thread; this does not return.
    Launch(Launch),
}

/// The table after the kernel's four handlers were registered.
pub open spec fn installed(handlers: Seq<Option<Handler>>) -> Seq<Option<Handler>> {
    registered(
        registered(
            registered(
                registered(handlers, SCHEDULER_BOOT as int, Handler::Boot),
                YIELD_NOW as int,
                Handler::Yield,
            ),
            SLEEP_MS as int,
            Handler::SleepMs,
        ),
        EXIT_THREAD as int,
        Handler::Exit,
    )
}

/// Registers the kernel's handlers under their syscall numbers.
pub fn install_syscalls(table: &mut SyscallTable<Handler>)
    ensures
        final(table)@ == installed(old(table)@),
{
    register(table, SCHEDULER_BOOT, Handler::Boot);
    register(table, YIELD_NOW, Handler::Yield);
    register(table, SLEEP_MS, Handler::SleepMs);
    register(table, EXIT_THREAD, Handler::Exit);
}

/// One step in setting up the system timer.
#[derive(Copy, Clone, PartialEq, Eq, Structural, Debug)]
pub enum SystickOp {
    /// Clock the timer from the core clock.
    ClockFromCore,
    /// Write the reload value.
    SetReload(u32),
    /// Clear the current value.
    ClearCurrent,
    /// Let the timer raise its exception.
    EnableInterrupt,
    /// Start counting.
    EnableCounter,
}

/// Reload value of the system timer for a core clock of `clock_freq` hertz:
/// the clock cycles in one tick period, less one.
pub open spec fn systick_reload(clock_freq: u32) -> int {
    clock_freq * SYSTICK_FREQ_MS / 1000 - 1
}

/// Whether a tick period of a clock of `clock_freq` hertz is at least one
/// cycle long and can be computed in 32 bits.
pub open spec fn clock_in_range(clock_freq: u32) -> bool {
    1000 <= clock_freq * SYSTICK_FREQ_MS <= u32::MAX
}

/// The set-up of the system timer, in order.
pub open spec fn systick_plan(clock_freq: u32) -> Seq<SystickOp> {
    seq![
        SystickOp::ClockFromCore,
        SystickOp::SetReload(systick_reload(clock_freq) as u32),
        SystickOp::ClearCurrent,
        SystickOp::EnableInterrupt,
        SystickOp::EnableCounter,
    ]
}

/// Plans the set-up of the system timer for a core clock of `clock_freq`
/// hertz.
pub fn init_systick(clock_freq: u32) -> (plan: [SystickOp; 5])
    requires
        clock_in_range(clock_freq),
    ensures
        plan@ == systick_plan(clock_freq),
        plan@[1] == SystickOp::SetReload((clock_freq * SYSTICK_FREQ_MS / 1000 - 1) as u32),
{
    let reload: u32 = (clock_freq * SYSTICK_FREQ_MS / 1000) - 1;
    let plan: [SystickOp; 5] = [
        SystickOp::ClockFromCore,
        SystickOp::SetReload(reload),
        SystickOp::ClearCurrent,
        SystickOp::EnableInterrupt,
        SystickOp::EnableCounter,
    ];
    assert(plan@ =~= systick_plan(clock_freq));
    plan
}

/// What initialisation yields: the kernel's state, and the settings for the
/// caller to apply to the hardware.
pub struct Init {
    /// Priority to give the context-switch exception.
    pub pendsv_priority: u8,
    /// The set-up of the system timer.
    pub systick: [SystickOp; 5],
    pub scheduler: RRScheduler,
    /// Where the idle thread was put, and the contents of its stack.
    pub idle: Spawned,
    pub syscalls: SyscallTable<Handler>,
}

/// Initialises the kernel: the timer settings, a scheduler that holds the idle
/// thread, and the handler table.
pub fn init(clock_freq: u32, stacks: StackPool, trampoline: u32, idle_fn: ThreadFn) -> (init: Init)
    requires
        clock_in_range(clock_freq),
        stacks.wf(),
    ensures
        init.pendsv_priority == PENDSV_PRIORITY,
        init.systick@ == systick_plan(clock_freq),
        init.scheduler@ == SchedState::empty(stacks, trampoline).with_idle(idle_fn),
        init.scheduler@.wf(),
        init.idle.slot == 0,
        init.scheduler@.threads[0] matches Some(t) && init.idle.stack.addr == t.context.stack_addr,
        init.idle.stack.words@ == initial_words(idle_fn, trampoline),
        init.syscalls@ == installed(Seq::new(MAX_SYSCALL_ID as nat, |id: int| None::<Handler>)),
{
    let systick: [SystickOp; 5] = init_systick(clock_freq);
    let (scheduler, idle) = init_scheduler(stacks, trampoline, idle_fn);
    let mut syscalls: SyscallTable<Handler> = SyscallTable::new();
    install_syscalls(&mut syscalls);
    Init { pendsv_priority: PENDSV_PRIORITY, systick, scheduler, idle, syscalls }
}

/// One step of booting.
#[derive(Copy, Clone, PartialEq, Eq, Structural, Debug)]
pub enum BootStep {
    /// Perform a step of MPU programming.
    Mpu(MpuOp),
    /// Enable interrupts.
    EnableInterrupts,
    /// Trap with a request.
    Trap(SvcRequest),
}

/// The boot, in order: the fixed MPU regions, interrupts on, then the trap
/// that launches the first thread.
pub open spec fn boot_plan() -> Seq<BootStep> {
    static_plan().map_values(|op: MpuOp| BootStep::Mpu(op)) + seq![
        BootStep::EnableInterrupts,
        BootStep::Trap(SvcRequest { id: SCHEDULER_BOOT, a0: None, a1: None }),
    ]
}

/// Plans the boot.
pub fn boot() -> (plan: [BootStep; 10])
    ensures
        plan@ == boot_plan(),
{
    let mpu: [MpuOp; 8] = mpu_init_static();
    let plan: [BootStep; 10] = [
        BootStep::Mpu(mpu[0]),
        BootStep::Mpu(mpu[1]),
        BootStep::Mpu(mpu[2]),
        BootStep::Mpu(mpu[3]),
        BootStep::Mpu(mpu[4]),
        BootStep::Mpu(mpu[5]),
        BootStep::Mpu(mpu[6]),
        BootStep::Mpu(mpu[7]),
        BootStep::EnableInterrupts,
        BootStep::Trap(scheduler_boot()),
    ];
    assert(plan@ =~= boot_plan());
    plan
}

/// The launch of the current thread, as the boot request asks for it.
pub open spec fn launch_of(s: SchedState) -> Launch {
    let curr = s.current.unwrap() as int;
    let t = s.threads[curr].unwrap();
    Launch {
        region: stack_region(s.stacks, curr),
        psp: (t.context.stack_addr + CALLEE_REGS_SIZE) as u32,
        control: ctrl_of(t.privileged),
        exc_return: EXC_RETURN,
    }
}

/// Whether the current thread can be launched: there is one, and the frame
/// above its saved stack pointer lies inside the address space.
pub open spec fn can_launch(s: SchedState) -> bool {
    &&& s.current is Some
    &&& s.threads[s.current.unwrap() as int].unwrap().context.stack_addr + CALLEE_REGS_SIZE
        <= u32::MAX
}

/// Handler of the boot request.
pub fn boot_handler<S: Scheduler>(sched: &mut S) -> (launch: Launch)
    requires
        old(sched)@.wf(),
        can_launch(old(sched)@),
    ensures
        launch == launch_of(old(sched)@),
        final(sched)@ == old(sched)@,
{
    let (psp, control, exc_return) = sched.get_initial_thread_registers();
    let (stack_base, stack_size) = sched.get_current_thread_stack();
    let region: RegionSetting = mpu_program_thread(stack_base, stack_size);
    Launch { region, psp, control, exc_return }
}

/// Handler of the yield request: the thread stays as it is until the pending
/// switch demotes it.
pub fn yield_handler() -> (effect: Effect)
    ensures
        effect == Effect::PendSwitch,
{
    Effect::PendSwitch
}

/// Handler of the sleep request.
pub fn sleep_ms_handler<S: Scheduler>(sched: &mut S, ms: usize) -> (effect: Effect)
    requires
        old(sched)@.wf(),
        old(sched)@.current is Some,
    ensures
        effect == Effect::PendSwitch,
        final(sched)@ == old(sched)@.slept(ms),
        final(sched)@.wf(),
{
    sched.syscall_sleep_ms(ms);
    Effect::PendSwitch
}

/// Handler of the exit request.
pub fn exit_handler<S: Scheduler>(sched: &mut S) -> (effect: Effect)
    requires
        old(sched)@.wf(),
        old(sched)@.current is Some,
    ensures
        effect == Effect::PendSwitch,
        final(sched)@ == old(sched)@.exited(),
        final(sched)@.wf(),
{
    sched.syscall_exit_thread();
    Effect::PendSwitch
}

/// State after `handler` ran with first argument `a1`.
pub open spec fn handled(s: SchedState, handler: Handler, a1: usize) -> SchedState {
    match handler {
        Handler::Boot => s,
        Handler::Yield => s,
        Handler::SleepMs => s.slept(a1),
        Handler::Exit => s.exited(),
    }
}

/// Runs `handler` on the three argument words of a dispatched request.
pub fn run_handler<S: Scheduler>(
    handler: Handler,
    sched: &mut S,
    a1: usize,
    a2: usize,
    a3: usize,
) -> (effect: Effect)
    requires
        old(sched)@.wf(),
        handler == Handler::Boot ==> can_launch(old(sched)@),
        handler == Handler::SleepMs || handler == Handler::Exit ==> old(sched)@.current is Some,
    ensures
        final(sched)@ == handled(old(sched)@, handler, a1),
        final(sched)@.wf(),
        effect == if handler == Handler::Boot {
            Effect::Launch(launch_of(old(sched)@))
        } else {
            Effect::PendSwitch
        },
{
    match handler {
        Handler::Boot => Effect::Launch(boot_handler(sched)),
        Handler::Yield => yield_handler(),
        Handler::SleepMs => sleep_ms_handler(sched, a1),
        Handler::Exit => exit_handler(sched),
    }
}

} // verus!
