//! Thread records and the stack contents a new thread starts from.

use vstd::prelude::*;

verus! {

/// Address of a thread's top-level function.
pub type ThreadFn = u32;

/// Bytes taken by the callee-saved block, `r4..r11`.
pub const CALLEE_REGS_SIZE: u32 = 8 * 4;

/// Bytes taken by the hardware exception frame.
pub const EXC_FRAME_SIZE: u32 = 8 * 4;

/// `EXC_RETURN` value: return to thread mode on the process stack, no
/// floating-point state.
pub const EXC_RETURN: u32 = 0xFFFF_FFFD;

/// Initial program status word: only the Thumb bit set.
pub const XPSR_THUMB: u32 = 0x0100_0000;

/// Words in the image of a fresh stack: callee-saved block plus exception frame.
pub const INITIAL_STACK_WORDS: usize = 16;

/// Why a thread cannot run.
#[derive(Copy, Clone, PartialEq, Eq, Structural, Debug)]
pub enum BlockReason {
    /// Asleep until the tick counter reaches the deadline.
    Sleep(usize),
}

/// Run state of a thread.
#[derive(Copy, Clone, PartialEq, Eq, Structural, Debug)]
pub enum ThreadState {
    Ready,
    Running,
    Blocked(BlockReason),
    Exited,
}

/// What a context switch saves in the thread record: the process stack pointer
/// at the base of the thread's callee-saved block.
#[derive(Copy, Clone, PartialEq, Eq, Structural, Debug)]
pub struct ThreadContext {
    pub stack_addr: u32,
}

/// A thread record.
#[derive(Copy, Clone, PartialEq, Eq, Structural, Debug)]
pub struct Thread {
    pub context: ThreadContext,
    /// Reserved for priority scheduling; not read by the scheduler.
    pub prio: u32,
    pub fn_addr: u32,
    pub privileged: bool,
    /// Whether the thread starts with a floating-point context.
    pub fp: bool,
    pub state: ThreadState,
}

/// The words to store at `addr`, ascending, before a new thread first runs.
#[derive(Copy, Clone, Debug)]
pub struct InitialStack {
    pub addr: u32,
    pub words: [u32; 16],
}

/// `addr` rounded down to a multiple of eight.
pub open spec fn align_down8(addr: int) -> int {
    addr - addr % 8
}

/// Saved stack pointer of a thread built on a stack whose top is `stack_addr`:
/// sixteen words below the eight-byte-aligned top.
pub open spec fn initial_sp(stack_addr: u32) -> int {
    align_down8(stack_addr as int) - (EXC_FRAME_SIZE + CALLEE_REGS_SIZE)
}

/// Initial stack contents, lowest address first: `r4..r11` cleared, then the
/// exception frame `r0, r1, r2, r3, r12, LR, PC, xPSR` with the entry function
/// in `r0` and the trampoline, Thumb bit set, in `PC`.
pub open spec fn initial_words(fn_addr: u32, trampoline: u32) -> Seq<u32> {
    seq![
        0u32, 0u32, 0u32, 0u32, 0u32, 0u32, 0u32, 0u32,
        fn_addr, 0u32, 0u32, 0u32, 0u32, EXC_RETURN, trampoline | 1u32, XPSR_THUMB,
    ]
}

/// CONTROL register value for a thread: process stack in both cases,
/// unprivileged unless the thread is privileged.
pub open spec fn ctrl_of(privileged: bool) -> u32 {
    if privileged { 0x2 } else { 0x3 }
}

impl Thread {
    /// Builds the record of a thread that will run `fn_addr` on the stack whose
    /// top is `stack_addr`, together with the stack contents that make its first
    /// resumption look like an exception return into `trampoline`.
    pub fn new(
        stack_addr: u32,
        prio: u32,
        fn_addr: u32,
        privileged: bool,
        fp: bool,
        trampoline: u32,
    ) -> (r: (Thread, InitialStack))
        requires
            stack_addr >= EXC_FRAME_SIZE + CALLEE_REGS_SIZE,
        ensures
            r.0 == (Thread {
                context: ThreadContext { stack_addr: initial_sp(stack_addr) as u32 },
                prio,
                fn_addr,
                privileged,
                fp,
                state: ThreadState::Ready,
            }),
            r.0.context.stack_addr == initial_sp(stack_addr),
            r.0.context.stack_addr % 8 == 0,
            r.1.addr == r.0.context.stack_addr,
            r.1.words@ == initial_words(fn_addr, trampoline),
    {
        let stack_top: u32 = stack_addr & !0x7u32;
        assert(stack_top == stack_addr - stack_addr % 8) by (bit_vector)
            requires
                stack_top == stack_addr & !0x7u32,
        ;
        let frame_base: u32 = stack_top - EXC_FRAME_SIZE;
        let frame_start: u32 = frame_base & !0x7u32;
        assert(frame_start == frame_base) by (bit_vector)
            requires
                frame_start == frame_base & !0x7u32,
                frame_base % 8 == 0,
        ;
        let regs_base: u32 = frame_start - CALLEE_REGS_SIZE;
        let regs_start: u32 = regs_base & !0x7u32;
        assert(regs_start == regs_base) by (bit_vector)
            requires
                regs_start == regs_base & !0x7u32,
                regs_base % 8 == 0,
        ;
        let words: [u32; 16] = [
            0, 0, 0, 0, 0, 0, 0, 0,
            fn_addr, 0, 0, 0, 0, EXC_RETURN, trampoline | 1, XPSR_THUMB,
        ];
        assert(words@ =~= initial_words(fn_addr, trampoline));
        let thread = Thread {
            context: ThreadContext { stack_addr: regs_start },
            prio,
            fn_addr,
            privileged,
            fp,
            state: ThreadState::Ready,
        };
        (thread, InitialStack { addr: regs_start, words })
    }

    /// Builds an unprivileged thread of priority zero, without floating point.
    pub fn from_thread_fn(thread_fn: ThreadFn, stack_addr: u32, trampoline: u32) -> (r: (
        Thread,
        InitialStack,
    ))
        requires
            stack_addr >= EXC_FRAME_SIZE + CALLEE_REGS_SIZE,
        ensures
            r.0 == (Thread {
                context: ThreadContext { stack_addr: initial_sp(stack_addr) as u32 },
                prio: 0,
                fn_addr: thread_fn,
                privileged: false,
                fp: false,
                state: ThreadState::Ready,
            }),
            r.0.context.stack_addr == initial_sp(stack_addr),
            r.1.addr == r.0.context.stack_addr,
            r.1.words@ == initial_words(thread_fn, trampoline),
    {
        Thread::new(stack_addr, 0, thread_fn, false, false, trampoline)
    }

    /// CONTROL register value to load when this thread runs.
    pub fn get_ctrl(&self) -> (ctrl: u32)
        ensures
            ctrl == ctrl_of(self.privileged),
    {
        if self.privileged {
            0x2
        } else {
            0x3
        }
    }
}

} // verus!
