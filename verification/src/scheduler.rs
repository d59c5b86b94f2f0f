//! Round-robin scheduler with a sleep queue.

use vstd::prelude::*;
use crate::stack::{StackPool, STACK_SIZE};
use crate::thread::{
    ctrl_of, initial_sp, initial_words, BlockReason, InitialStack, Thread, ThreadContext, ThreadFn,
    ThreadState, CALLEE_REGS_SIZE, EXC_FRAME_SIZE, EXC_RETURN,
};
use crate::syscall::SvcRequest;
use crate::syscall::numbers::{SLEEP_MS, YIELD_NOW};
use crate::SYSTICK_FREQ_MS;

verus! {

/// Slots in the thread table, the idle thread's included.
pub const MAX_THREADS: usize = 4;

/// Tick counter `delta` milliseconds after `now`; the counter wraps.
pub open spec fn ticks_after(now: usize, delta: usize) -> usize {
    if now + delta > usize::MAX {
        (now + delta - usize::MAX - 1) as usize
    } else {
        (now + delta) as usize
    }
}

/// Milliseconds from `deadline` to `now` on the wrapping counter.
pub open spec fn ticks_since(now: usize, deadline: usize) -> int {
    if now >= deadline {
        now - deadline
    } else {
        now - deadline + usize::MAX + 1
    }
}

/// Whether a sleeper with `deadline` is due at `now`: the counter is at the
/// deadline or at most half its range past it.
pub open spec fn deadline_reached(now: usize, deadline: usize) -> bool {
    ticks_since(now, deadline) <= usize::MAX / 2
}

/// A thread after a tick that left the counter at `now`: a sleeper whose
/// deadline is reached becomes ready, every other thread is unchanged.
pub open spec fn woken(slot: Option<Thread>, now: usize) -> Option<Thread> {
    match slot {
        Some(t) => match t.state {
            ThreadState::Blocked(BlockReason::Sleep(deadline)) => if deadline_reached(
                now,
                deadline,
            ) {
                Some(Thread { state: ThreadState::Ready, ..t })
            } else {
                slot
            },
            _ => slot,
        },
        None => slot,
    }
}

/// The thread that leaves the processor, as a switch leaves its slot: a
/// running thread becomes ready, an exited thread gives up its slot, a blocked
/// or ready one stays as it is.
pub open spec fn demoted(t: Thread) -> Option<Thread> {
    match t.state {
        ThreadState::Running => Some(Thread { state: ThreadState::Ready, ..t }),
        ThreadState::Exited => None,
        _ => Some(t),
    }
}

/// Mathematical model of the scheduler.
pub struct SchedState {
    /// The thread table; the index of a slot is the thread's id.
    pub threads: Seq<Option<Thread>>,
    pub current: Option<usize>,
    pub idle: Option<usize>,
    pub ticks: usize,
    pub stacks: StackPool,
    pub trampoline: u32,
}

impl SchedState {
    /// The state before any thread is spawned.
    pub open spec fn empty(stacks: StackPool, trampoline: u32) -> SchedState {
        SchedState {
            threads: Seq::new(MAX_THREADS as nat, |slot: int| None::<Thread>),
            current: None,
            idle: None,
            ticks: 0,
            stacks,
            trampoline,
        }
    }

    pub open spec fn is_ready(self, slot: int) -> bool {
        &&& 0 <= slot < MAX_THREADS
        &&& self.threads[slot] matches Some(t)
        &&& t.state == ThreadState::Ready
    }

    pub open spec fn is_running(self, slot: int) -> bool {
        &&& 0 <= slot < MAX_THREADS
        &&& self.threads[slot] matches Some(t)
        &&& t.state == ThreadState::Running
    }

    /// The table has `MAX_THREADS` slots, the current thread exists, the idle
    /// id names a slot, and no thread but the current one is running.
    pub open spec fn wf(self) -> bool {
        &&& self.threads.len() == MAX_THREADS
        &&& self.stacks.wf()
        &&& self.current matches Some(c) ==> c < MAX_THREADS && self.threads[c as int] is Some
        &&& self.idle matches Some(i) ==> i < MAX_THREADS
        &&& forall|slot: int| #[trigger]
            self.is_running(slot) ==> self.current == Some(slot as usize)
    }

    /// A slot that a new thread may take: empty, and not the idle thread's.
    pub open spec fn is_free(self, slot: int) -> bool {
        &&& 0 <= slot < MAX_THREADS
        &&& self.threads[slot] is None
        &&& self.idle != Some(slot as usize)
    }

    /// The lowest free slot at or above `from`.
    pub open spec fn first_free(self, from: int) -> Option<usize>
        decreases MAX_THREADS - from,
    {
        if from < 0 || from >= MAX_THREADS {
            None
        } else if self.is_free(from) {
            Some(from as usize)
        } else {
            self.first_free(from + 1)
        }
    }

    /// The slot that the next spawn fills.
    pub open spec fn free_slot(self) -> Option<usize> {
        self.first_free(0)
    }

    /// Record of a thread freshly built for `slot`.
    pub open spec fn fresh_thread(self, slot: int, thread_fn: ThreadFn) -> Thread {
        Thread {
            context: ThreadContext {
                stack_addr: initial_sp(self.stacks.top_of(slot) as u32) as u32,
            },
            prio: 0,
            fn_addr: thread_fn,
            privileged: false,
            fp: false,
            state: ThreadState::Ready,
        }
    }

    /// State after the idle thread was spawned.
    pub open spec fn with_idle(self, thread_fn: ThreadFn) -> SchedState {
        let slot = self.free_slot().unwrap();
        SchedState {
            threads: self.threads.update(
                slot as int,
                Some(self.fresh_thread(slot as int, thread_fn)),
            ),
            idle: Some(slot),
            ..self
        }
    }

    /// State after a user thread was spawned: it takes the lowest free slot and
    /// becomes the current thread where there was none.
    pub open spec fn with_thread(self, thread_fn: ThreadFn) -> SchedState {
        let slot = self.free_slot().unwrap();
        SchedState {
            threads: self.threads.update(
                slot as int,
                Some(self.fresh_thread(slot as int, thread_fn)),
            ),
            current: if self.current is None {
                Some(slot)
            } else {
                self.current
            },
            ..self
        }
    }

    /// A slot the round-robin scan may pick: a ready thread other than idle.
    pub open spec fn candidate(self, slot: int) -> bool {
        self.is_ready(slot) && self.idle != Some(slot as usize)
    }

    /// The slot `offset` places after `curr`, going round the table.
    pub open spec fn slot_after(curr: int, offset: int) -> int {
        (curr + offset) % (MAX_THREADS as int)
    }

    /// The first candidate met going round the table from `offset` places after
    /// `curr`, stopping short of `curr` itself.
    pub open spec fn scan(self, curr: int, offset: int) -> Option<usize>
        decreases MAX_THREADS - offset,
    {
        if offset < 1 || offset >= MAX_THREADS {
            None
        } else if self.candidate(Self::slot_after(curr, offset)) {
            Some(Self::slot_after(curr, offset) as usize)
        } else {
            self.scan(curr, offset + 1)
        }
    }

    /// The thread to run next: the first candidate after the current thread or,
    /// where there is none, the idle thread if it is ready and not current.
    pub open spec fn pick_next(self) -> Option<usize> {
        let curr = self.current.unwrap();
        let idle = self.idle.unwrap();
        match self.scan(curr as int, 1) {
            Some(next) => Some(next),
            None => if idle != curr && self.is_ready(idle as int) {
                Some(idle)
            } else {
                None
            },
        }
    }

    /// State after the processor went from `prev` to `next`.
    pub open spec fn switched(self, prev: int, next: int) -> SchedState {
        let next_t = self.threads[next].unwrap();
        SchedState {
            threads: self.threads.update(prev, demoted(self.threads[prev].unwrap())).update(
                next,
                Some(Thread { state: ThreadState::Running, ..next_t }),
            ),
            current: Some(next as usize),
            ..self
        }
    }

    /// What a scheduling pass returns: the pair of the current thread and the
    /// one picked, or nothing where no other thread can run.
    pub open spec fn decision(self) -> Option<(usize, usize)> {
        match self.pick_next() {
            Some(next) => Some((self.current.unwrap(), next)),
            None => None,
        }
    }

    /// State after a scheduling pass.
    pub open spec fn scheduled(self) -> SchedState {
        match self.pick_next() {
            Some(next) => self.switched(self.current.unwrap() as int, next as int),
            None => self,
        }
    }

    /// State after the current thread asked to sleep for `ms` milliseconds.
    pub open spec fn slept(self, ms: usize) -> SchedState {
        let curr = self.current.unwrap() as int;
        let t = self.threads[curr].unwrap();
        SchedState {
            threads: self.threads.update(
                curr,
                Some(
                    Thread {
                        state: ThreadState::Blocked(
                            BlockReason::Sleep(ticks_after(self.ticks, ms)),
                        ),
                        ..t
                    },
                ),
            ),
            ..self
        }
    }

    /// State after the current thread exited.
    pub open spec fn exited(self) -> SchedState {
        let curr = self.current.unwrap() as int;
        let t = self.threads[curr].unwrap();
        SchedState {
            threads: self.threads.update(curr, Some(Thread { state: ThreadState::Exited, ..t })),
            ..self
        }
    }

    /// State after one tick of the system timer.
    pub open spec fn ticked(self) -> SchedState {
        let now = ticks_after(self.ticks, SYSTICK_FREQ_MS as usize);
        SchedState {
            threads: Seq::new(self.threads.len(), |slot: int| woken(self.threads[slot], now)),
            ticks: now,
            ..self
        }
    }
}

/// Where a new thread was put, and what its stack must hold before it runs.
#[derive(Copy, Clone, Debug)]
pub struct Spawned {
    pub slot: usize,
    pub stack: InitialStack,
}

/// The Scheduler holds a fixed array of threads and tracks the current thread.
pub struct RRScheduler {
    pub threads: [Option<Thread>; MAX_THREADS],
    pub current_thread_id: Option<usize>,
    pub idle_thread_id: Option<usize>,
    pub tick_count: usize,
    pub stacks: StackPool,
    pub trampoline: u32,
}

impl View for RRScheduler {
    type V = SchedState;

    open spec fn view(&self) -> SchedState {
        SchedState {
            threads: self.threads@,
            current: self.current_thread_id,
            idle: self.idle_thread_id,
            ticks: self.tick_count,
            stacks: self.stacks,
            trampoline: self.trampoline,
        }
    }
}

/// What the kernel asks of a scheduler. Every operation is stated over the
/// model.
pub trait Scheduler: View<V = SchedState> {
    /// Spawn the idle thread, which runs when nothing else can. Call this once,
    /// before any user thread is spawned.
    fn spawn_idle(&mut self, thread_fn: ThreadFn) -> (spawned: Spawned)
        requires
            old(self)@.wf(),
            old(self)@.idle is None,
            old(self)@.free_slot() is Some,
        ensures
            final(self)@ == old(self)@.with_idle(thread_fn),
            final(self)@.wf(),
            Some(spawned.slot) == old(self)@.free_slot(),
            final(self)@.threads[spawned.slot as int] matches Some(t)
                && spawned.stack.addr == t.context.stack_addr,
            spawned.stack.addr == old(self)@.stacks.top_of(spawned.slot as int) - (EXC_FRAME_SIZE
                + CALLEE_REGS_SIZE),
            spawned.stack.words@ == initial_words(thread_fn, old(self)@.trampoline),
    ;

    /// Add a new user thread.
    fn spawn(&mut self, thread_fn: ThreadFn) -> (spawned: Spawned)
        requires
            old(self)@.wf(),
            old(self)@.free_slot() is Some,
        ensures
            final(self)@ == old(self)@.with_thread(thread_fn),
            final(self)@.wf(),
            Some(spawned.slot) == old(self)@.free_slot(),
            final(self)@.threads[spawned.slot as int] matches Some(t)
                && spawned.stack.addr == t.context.stack_addr,
            spawned.stack.addr == old(self)@.stacks.top_of(spawned.slot as int) - (EXC_FRAME_SIZE
                + CALLEE_REGS_SIZE),
            spawned.stack.words@ == initial_words(thread_fn, old(self)@.trampoline),
    ;

    /// Process stack pointer, CONTROL and `EXC_RETURN` with which the current
    /// thread is launched for the first time.
    fn get_initial_thread_registers(&mut self) -> (regs: (u32, u32, u32))
        requires
            old(self)@.wf(),
            old(self)@.current is Some,
            old(self)@.threads[old(self)@.current.unwrap() as int].unwrap().context.stack_addr
                + CALLEE_REGS_SIZE <= u32::MAX,
        ensures
            final(self)@ == old(self)@,
            regs.0 == old(self)@.threads[old(self)@.current.unwrap() as int].unwrap().context.stack_addr
                + CALLEE_REGS_SIZE,
            regs.1 == ctrl_of(
                old(self)@.threads[old(self)@.current.unwrap() as int].unwrap().privileged,
            ),
            regs.2 == EXC_RETURN,
    ;

    /// Base address and size in bytes of the current thread's stack.
    fn get_current_thread_stack(&self) -> (range: (usize, usize))
        requires
            self@.wf(),
            self@.current is Some,
        ensures
            range.0 == self@.stacks.base_of(self@.current.unwrap() as int),
            range.1 == STACK_SIZE,
    ;

    /// One scheduling pass, round-robin over the user threads; the idle thread
    /// runs only when none of them is ready. Returns the thread that leaves
    /// the processor and the one that takes it, or nothing where the current
    /// thread goes on.
    fn schedule(&mut self) -> (switch: Option<(usize, usize)>)
        requires
            old(self)@.wf(),
            old(self)@.current is Some,
            old(self)@.idle is Some,
        ensures
            switch == old(self)@.decision(),
            final(self)@ == old(self)@.scheduled(),
            final(self)@.wf(),
            match switch {
                Some((prev, next)) => {
                    &&& old(self)@.current == Some(prev)
                    &&& next != prev
                    &&& old(self)@.is_ready(next as int)
                    &&& final(self)@ == old(self)@.switched(prev as int, next as int)
                    &&& final(self)@.is_running(next as int)
                    &&& !final(self)@.is_running(prev as int)
                },
                None => final(self)@ == old(self)@,
            },
    ;

    /// Put the current thread to sleep for `ms` milliseconds.
    fn syscall_sleep_ms(&mut self, ms: usize)
        requires
            old(self)@.wf(),
            old(self)@.current is Some,
        ensures
            final(self)@ == old(self)@.slept(ms),
            final(self)@.wf(),
    ;

    /// Mark the current thread as exited.
    fn syscall_exit_thread(&mut self)
        requires
            old(self)@.wf(),
            old(self)@.current is Some,
        ensures
            final(self)@ == old(self)@.exited(),
            final(self)@.wf(),
    ;

    /// One tick of the system timer: advance the counter, then wake the
    /// sleepers whose deadline is reached.
    fn systick(&mut self)
        requires
            old(self)@.wf(),
        ensures
            final(self)@ == old(self)@.ticked(),
            final(self)@.wf(),
    ;
}

impl RRScheduler {
    /// An empty scheduler for threads that run on `stacks` and start in
    /// `trampoline`.
    pub fn new(stacks: StackPool, trampoline: u32) -> (sched: Self)
        requires
            stacks.wf(),
        ensures
            sched@ == SchedState::empty(stacks, trampoline),
            sched@.wf(),
            sched@.free_slot() == Some(0usize),
    {
        let sched = RRScheduler {
            threads: [None, None, None, None],
            current_thread_id: None,
            idle_thread_id: None,
            tick_count: 0,
            stacks,
            trampoline,
        };
        assert(sched@.threads =~= SchedState::empty(stacks, trampoline).threads);
        sched
    }

    /// Whether the scheduler is well formed. It is after `new` and after every
    /// operation; a caller that writes the fields itself can ask.
    pub fn is_well_formed(&self) -> (ok: bool)
        ensures
            ok == self@.wf(),
    {
        if StackPool::new(self.stacks.base).is_none() {
            return false;
        }
        if let Some(curr) = self.current_thread_id {
            if curr >= MAX_THREADS {
                return false;
            }
            if self.threads[curr].is_none() {
                return false;
            }
        }
        if let Some(idle) = self.idle_thread_id {
            if idle >= MAX_THREADS {
                return false;
            }
        }
        let mut i: usize = 0;
        while i < MAX_THREADS
            invariant
                i <= MAX_THREADS,
                forall|slot: int|
                    0 <= slot < i && #[trigger] self@.is_running(slot) ==> self@.current == Some(
                        slot as usize,
                    ),
            decreases MAX_THREADS - i,
        {
            if let Some(t) = self.threads[i] {
                if t.state == ThreadState::Running {
                    let is_current: bool = match self.current_thread_id {
                        Some(curr) => curr == i,
                        None => false,
                    };
                    if !is_current {
                        assert(self@.is_running(i as int));
                        return false;
                    }
                }
            }
            i += 1;
        }
        true
    }

    /// The lowest empty slot that is not the idle thread's.
    pub fn find_free_slot(&self) -> (slot: Option<usize>)
        ensures
            slot == self@.free_slot(),
    {
        let mut i: usize = 0;
        while i < MAX_THREADS
            invariant
                i <= MAX_THREADS,
                self@.free_slot() == self@.first_free(i as int),
            decreases MAX_THREADS - i,
        {
            let is_idle: bool = match self.idle_thread_id {
                Some(idle) => idle == i,
                None => false,
            };
            if self.threads[i].is_none() && !is_idle {
                return Some(i);
            }
            i += 1;
        }
        None
    }

    /// Demote `curr`, promote `next`, and return the pair.
    fn do_switch(&mut self, curr: usize, next: usize) -> (switch: Option<(usize, usize)>)
        requires
            curr < MAX_THREADS,
            next < MAX_THREADS,
            curr != next,
            old(self)@.threads[curr as int] is Some,
            old(self)@.threads[next as int] is Some,
        ensures
            switch == Some((curr, next)),
            final(self)@ == old(self)@.switched(curr as int, next as int),
    {
        let mut prev_t: Thread = self.threads[curr].unwrap();
        match prev_t.state {
            ThreadState::Running => {
                prev_t.state = ThreadState::Ready;
                self.threads[curr] = Some(prev_t);
            },
            ThreadState::Exited => {
                self.threads[curr] = None;
            },
            _ => {},
        }
        let mut next_t: Thread = self.threads[next].unwrap();
        next_t.state = ThreadState::Running;
        self.threads[next] = Some(next_t);
        self.current_thread_id = Some(next);
        assert(self@.threads =~= old(self)@.switched(curr as int, next as int).threads);
        Some((curr, next))
    }
}

impl Scheduler for RRScheduler {
    fn spawn_idle(&mut self, thread_fn: ThreadFn) -> (spawned: Spawned) {
        let slot: usize = self.find_free_slot().unwrap();
        proof {
            self@.lemma_first_free_is_free(0);
            self@.lemma_with_idle_wf(thread_fn);
        }
        let stack_addr: u32 = self.stacks.stack_top(slot);
        let (t, stack) = Thread::from_thread_fn(thread_fn, stack_addr, self.trampoline);
        self.threads[slot] = Some(t);
        self.idle_thread_id = Some(slot);
        assert(self@.threads =~= old(self)@.with_idle(thread_fn).threads);
        Spawned { slot, stack }
    }

    fn spawn(&mut self, thread_fn: ThreadFn) -> (spawned: Spawned) {
        let slot: usize = self.find_free_slot().unwrap();
        proof {
            self@.lemma_first_free_is_free(0);
            self@.lemma_with_thread_wf(thread_fn);
        }
        let stack_addr: u32 = self.stacks.stack_top(slot);
        let (t, stack) = Thread::from_thread_fn(thread_fn, stack_addr, self.trampoline);
        self.threads[slot] = Some(t);
        if self.current_thread_id.is_none() {
            self.current_thread_id = Some(slot);
        }
        assert(self@.threads =~= old(self)@.with_thread(thread_fn).threads);
        Spawned { slot, stack }
    }

    fn get_initial_thread_registers(&mut self) -> (regs: (u32, u32, u32)) {
        let tid: usize = self.current_thread_id.unwrap();
        let thread: Thread = self.threads[tid].unwrap();
        let psp: u32 = thread.context.stack_addr + CALLEE_REGS_SIZE;
        let control: u32 = thread.get_ctrl();
        (psp, control, EXC_RETURN)
    }

    fn get_current_thread_stack(&self) -> (range: (usize, usize)) {
        let tid: usize = self.current_thread_id.unwrap();
        let stack_base: u32 = self.stacks.stack_base(tid);
        (stack_base as usize, STACK_SIZE as usize)
    }

    fn schedule(&mut self) -> (switch: Option<(usize, usize)>) {
        let curr: usize = self.current_thread_id.unwrap();
        let idle: usize = self.idle_thread_id.unwrap();
        let mut offset: usize = 1;
        while offset < MAX_THREADS
            invariant
                1 <= offset <= MAX_THREADS,
                *self == *old(self),
                self@.wf(),
                self@.current == Some(curr),
                self@.idle == Some(idle),
                self@.scan(curr as int, 1) == self@.scan(curr as int, offset as int),
            decreases MAX_THREADS - offset,
        {
            let next: usize = (curr + offset) % MAX_THREADS;
            if next != idle {
                if let Some(th) = self.threads[next] {
                    if th.state == ThreadState::Ready {
                        proof {
                            old(self)@.lemma_switched_wf(next as int);
                        }
                        return self.do_switch(curr, next);
                    }
                }
            }
            offset += 1;
        }
        if idle != curr {
            if let Some(idle_t) = self.threads[idle] {
                if idle_t.state == ThreadState::Ready {
                    proof {
                        old(self)@.lemma_switched_wf(idle as int);
                    }
                    return self.do_switch(curr, idle);
                }
            }
        }
        None
    }

    fn syscall_sleep_ms(&mut self, ms: usize) {
        let tid: usize = self.current_thread_id.unwrap();
        let mut thread: Thread = self.threads[tid].unwrap();
        let wakeup_time: usize = self.tick_count.wrapping_add(ms);
        thread.state = ThreadState::Blocked(BlockReason::Sleep(wakeup_time));
        self.threads[tid] = Some(thread);
        proof {
            old(self)@.lemma_slept_wf(ms);
        }
        assert(self@.threads =~= old(self)@.slept(ms).threads);
    }

    fn syscall_exit_thread(&mut self) {
        let curr_id: usize = self.current_thread_id.unwrap();
        let mut thread: Thread = self.threads[curr_id].unwrap();
        thread.state = ThreadState::Exited;
        self.threads[curr_id] = Some(thread);
        proof {
            old(self)@.lemma_exited_wf();
        }
        assert(self@.threads =~= old(self)@.exited().threads);
    }

    fn systick(&mut self) {
        self.tick_count = self.tick_count.wrapping_add(SYSTICK_FREQ_MS as usize);
        let now: usize = self.tick_count;
        let mut i: usize = 0;
        while i < MAX_THREADS
            invariant
                i <= MAX_THREADS,
                self.tick_count == now,
                now == ticks_after(old(self).tick_count, SYSTICK_FREQ_MS as usize),
                self.current_thread_id == old(self).current_thread_id,
                self.idle_thread_id == old(self).idle_thread_id,
                self.stacks == old(self).stacks,
                self.trampoline == old(self).trampoline,
                forall|slot: int|
                    0 <= slot < i ==> self.threads@[slot] == woken(old(self).threads@[slot], now),
                forall|slot: int|
                    i <= slot < MAX_THREADS ==> self.threads@[slot] == old(self).threads@[slot],
            decreases MAX_THREADS - i,
        {
            if let Some(t) = self.threads[i] {
                if let ThreadState::Blocked(BlockReason::Sleep(deadline)) = t.state {
                    if now.wrapping_sub(deadline) <= usize::MAX / 2 {
                        let mut ready: Thread = t;
                        ready.state = ThreadState::Ready;
                        self.threads[i] = Some(ready);
                    }
                }
            }
            i += 1;
        }
        proof {
            old(self)@.lemma_ticked_wf();
        }
        assert(self@.threads =~= old(self)@.ticked().threads);
    }
}

/// Creates the scheduler and spawns the idle thread, which takes slot 0.
pub fn init_scheduler(stacks: StackPool, trampoline: u32, idle_fn: ThreadFn) -> (r: (
    RRScheduler,
    Spawned,
))
    requires
        stacks.wf(),
    ensures
        r.0@ == SchedState::empty(stacks, trampoline).with_idle(idle_fn),
        r.0@.wf(),
        r.0@.idle == Some(0usize),
        r.0@.current is None,
        r.1.slot == 0,
        r.0@.threads[0] matches Some(t) && r.1.stack.addr == t.context.stack_addr,
        r.1.stack.addr == stacks.top_of(0) - (EXC_FRAME_SIZE + CALLEE_REGS_SIZE),
        r.1.stack.words@ == initial_words(idle_fn, trampoline),
{
    let mut sched = RRScheduler::new(stacks, trampoline);
    let spawned = spawn_idle(&mut sched, idle_fn);
    (sched, spawned)
}

/// Spawns the idle thread on `sched`.
pub fn spawn_idle<S: Scheduler>(sched: &mut S, thread_fn: ThreadFn) -> (spawned: Spawned)
    requires
        old(sched)@.wf(),
        old(sched)@.idle is None,
        old(sched)@.free_slot() is Some,
    ensures
        final(sched)@ == old(sched)@.with_idle(thread_fn),
        final(sched)@.wf(),
        Some(spawned.slot) == old(sched)@.free_slot(),
        final(sched)@.threads[spawned.slot as int] matches Some(t)
            && spawned.stack.addr == t.context.stack_addr,
        spawned.stack.addr == old(sched)@.stacks.top_of(spawned.slot as int) - (EXC_FRAME_SIZE
            + CALLEE_REGS_SIZE),
        spawned.stack.words@ == initial_words(thread_fn, old(sched)@.trampoline),
{
    sched.spawn_idle(thread_fn)
}

/// Spawns a user thread on `sched`.
pub fn spawn_thread<S: Scheduler>(sched: &mut S, thread_fn: ThreadFn) -> (spawned: Spawned)
    requires
        old(sched)@.wf(),
        old(sched)@.free_slot() is Some,
    ensures
        final(sched)@ == old(sched)@.with_thread(thread_fn),
        final(sched)@.wf(),
        Some(spawned.slot) == old(sched)@.free_slot(),
        final(sched)@.threads[spawned.slot as int] matches Some(t)
            && spawned.stack.addr == t.context.stack_addr,
        spawned.stack.addr == old(sched)@.stacks.top_of(spawned.slot as int) - (EXC_FRAME_SIZE
            + CALLEE_REGS_SIZE),
        spawned.stack.words@ == initial_words(thread_fn, old(sched)@.trampoline),
{
    sched.spawn(thread_fn)
}

/// The request by which the calling thread gives up the processor.
pub fn yield_now() -> (req: SvcRequest)
    ensures
        req == (SvcRequest { id: YIELD_NOW, a0: None, a1: None }),
{
    crate::syscall::yield_now()
}

/// The request by which the calling thread sleeps for `ms` milliseconds.
pub fn sleep_ms(ms: u32) -> (req: SvcRequest)
    ensures
        req == (SvcRequest { id: SLEEP_MS, a0: Some(ms as usize), a1: None }),
{
    crate::syscall::sleep_ms(ms)
}

/// One scheduling pass on `sched`.
pub fn schedule<S: Scheduler>(sched: &mut S) -> (switch: Option<(usize, usize)>)
    requires
        old(sched)@.wf(),
        old(sched)@.current is Some,
        old(sched)@.idle is Some,
    ensures
        switch == old(sched)@.decision(),
        final(sched)@ == old(sched)@.scheduled(),
        final(sched)@.wf(),
        switch matches Some((prev, next)) ==> final(sched)@.is_running(next as int)
            && !final(sched)@.is_running(prev as int),
{
    sched.schedule()
}

impl SchedState {
    /// What `first_free` returns is a free slot at or above `from`, and the
    /// lowest one.
    pub proof fn lemma_first_free_is_free(self, from: int)
        requires
            0 <= from,
        ensures
            match self.first_free(from) {
                Some(slot) => from <= slot && self.is_free(slot as int) && forall|other: int|
                    from <= other < slot ==> !self.is_free(other),
                None => forall|other: int| from <= other ==> !self.is_free(other),
            },
        decreases MAX_THREADS - from,
    {
        if from < MAX_THREADS && !self.is_free(from) {
            self.lemma_first_free_is_free(from + 1);
        }
    }

    /// Spawning the idle thread keeps the state well formed.
    pub proof fn lemma_with_idle_wf(self, thread_fn: ThreadFn)
        requires
            self.wf(),
            self.free_slot() is Some,
        ensures
            self.with_idle(thread_fn).wf(),
    {
        self.lemma_first_free_is_free(0);
        let after = self.with_idle(thread_fn);
        assert forall|slot: int| #[trigger] after.is_running(slot) implies after.current == Some(
            slot as usize,
        ) by {
            assert(self.is_running(slot));
        }
    }

    /// Spawning a user thread keeps the state well formed.
    pub proof fn lemma_with_thread_wf(self, thread_fn: ThreadFn)
        requires
            self.wf(),
            self.free_slot() is Some,
        ensures
            self.with_thread(thread_fn).wf(),
    {
        self.lemma_first_free_is_free(0);
        let after = self.with_thread(thread_fn);
        assert forall|slot: int| #[trigger] after.is_running(slot) implies after.current == Some(
            slot as usize,
        ) by {
            assert(self.is_running(slot));
        }
    }

    /// Putting the current thread to sleep keeps the state well formed.
    pub proof fn lemma_slept_wf(self, ms: usize)
        requires
            self.wf(),
            self.current is Some,
        ensures
            self.slept(ms).wf(),
    {
        let after = self.slept(ms);
        assert forall|slot: int| #[trigger] after.is_running(slot) implies after.current == Some(
            slot as usize,
        ) by {
            assert(self.is_running(slot));
        }
    }

    /// Marking the current thread as exited keeps the state well formed.
    pub proof fn lemma_exited_wf(self)
        requires
            self.wf(),
            self.current is Some,
        ensures
            self.exited().wf(),
    {
        let after = self.exited();
        assert forall|slot: int| #[trigger] after.is_running(slot) implies after.current == Some(
            slot as usize,
        ) by {
            assert(self.is_running(slot));
        }
    }

    /// A tick keeps the state well formed.
    pub proof fn lemma_ticked_wf(self)
        requires
            self.wf(),
        ensures
            self.ticked().wf(),
    {
        let after = self.ticked();
        assert forall|slot: int| #[trigger] after.is_running(slot) implies after.current == Some(
            slot as usize,
        ) by {
            assert(self.is_running(slot));
        }
    }

    /// Whether `next` is the first candidate met from `offset` places after
    /// `curr` on, and is met `k` places after it.
    pub open spec fn first_candidate_at(self, curr: int, offset: int, k: int, next: int) -> bool {
        &&& offset <= k < MAX_THREADS
        &&& next == Self::slot_after(curr, k)
        &&& next != curr
        &&& self.candidate(next)
        &&& forall|j: int| offset <= j < k ==> !self.candidate(#[trigger] Self::slot_after(curr, j))
    }

    /// What the round-robin scan finds from `offset` on is the first candidate
    /// on the way round the table; where it finds nothing, there is none.
    pub proof fn lemma_scan(self, curr: int, offset: int)
        requires
            0 <= curr < MAX_THREADS,
            1 <= offset,
        ensures
            match self.scan(curr, offset) {
                Some(next) => exists|k: int| #[trigger]
                    self.first_candidate_at(curr, offset, k, next as int),
                None => forall|j: int|
                    offset <= j < MAX_THREADS ==> !self.candidate(
                        #[trigger] Self::slot_after(curr, j),
                    ),
            },
        decreases MAX_THREADS - offset,
    {
        if offset < MAX_THREADS {
            if self.candidate(Self::slot_after(curr, offset)) {
                let next = self.scan(curr, offset).unwrap();
                assert(self.first_candidate_at(curr, offset, offset, next as int));
            } else {
                self.lemma_scan(curr, offset + 1);
                if let Some(next) = self.scan(curr, offset) {
                    let k = choose|k: int| #[trigger]
                        self.first_candidate_at(curr, offset + 1, k, next as int);
                    assert(self.first_candidate_at(curr, offset, k, next as int));
                }
            }
        }
    }

    /// The thread picked is live, ready and not the current one.
    pub proof fn lemma_pick_next(self)
        requires
            self.wf(),
            self.current is Some,
            self.idle is Some,
        ensures
            self.pick_next() matches Some(next) ==> next < MAX_THREADS && next
                != self.current.unwrap() && self.is_ready(next as int),
    {
        self.lemma_scan(self.current.unwrap() as int, 1);
    }

    /// A scheduling pass keeps the state well formed.
    pub proof fn lemma_scheduled_wf(self)
        requires
            self.wf(),
            self.current is Some,
            self.idle is Some,
        ensures
            self.scheduled().wf(),
    {
        self.lemma_pick_next();
        if let Some(next) = self.pick_next() {
            self.lemma_switched_wf(next as int);
        }
    }

    /// A switch from the current thread to another live one keeps the state
    /// well formed.
    pub proof fn lemma_switched_wf(self, next: int)
        requires
            self.wf(),
            self.current is Some,
            0 <= next < MAX_THREADS,
            next != self.current.unwrap(),
            self.threads[next] is Some,
        ensures
            self.switched(self.current.unwrap() as int, next).wf(),
            self.switched(self.current.unwrap() as int, next).is_running(next),
            !self.switched(self.current.unwrap() as int, next).is_running(
                self.current.unwrap() as int,
            ),
    {
        let prev = self.current.unwrap() as int;
        let after = self.switched(prev, next);
        assert forall|slot: int| #[trigger] after.is_running(slot) implies after.current == Some(
            slot as usize,
        ) by {
            if slot != next && slot != prev {
                assert(self.is_running(slot));
            }
        }
    }
}

} // verus!
