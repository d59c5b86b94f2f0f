//! Invariants of the scheduler, and theorems about its transitions.

use vstd::prelude::*;
use crate::scheduler::{deadline_reached, demoted, ticks_after, SchedState, MAX_THREADS};
use crate::stack::{StackPool, STACK_SIZE};
use crate::thread::{BlockReason, Thread, ThreadContext, ThreadFn, ThreadState};
use crate::SYSTICK_FREQ_MS;

verus! {

/// One transition of the scheduler.
pub enum Step {
    /// The idle thread is spawned.
    SpawnIdle(ThreadFn),
    /// A user thread is spawned.
    Spawn(ThreadFn),
    /// A scheduling pass.
    Schedule,
    /// The current thread asks to sleep.
    Sleep(usize),
    /// The current thread exits.
    Exit,
    /// The system timer ticks.
    Tick,
    /// The context switch stores the stack pointer of the thread in `slot`.
    Saved { slot: usize, sp: u32 },
}

/// The remainder of a value that passes the counter's range at most once.
proof fn lemma_wrap_once(value: int)
    requires
        0 <= value < 2 * (usize::MAX + 1),
    ensures
        value % (usize::MAX + 1) == if value > usize::MAX {
            value - usize::MAX - 1
        } else {
            value
        },
{
    let range = usize::MAX + 1;
    if value < range {
        vstd::arithmetic::div_mod::lemma_small_mod(value as nat, range as nat);
    } else {
        vstd::arithmetic::div_mod::lemma_small_mod((value - range) as nat, range as nat);
        vstd::arithmetic::div_mod::lemma_mod_add_multiples_vanish(value - range, range);
    }
}

impl SchedState {
    /// No two slots hold a running thread.
    pub open spec fn at_most_one_running(self) -> bool {
        forall|a: int, b: int| self.is_running(a) && self.is_running(b) ==> a == b
    }

    /// Whether `sp` leaves sixteen bytes at either end of the stack of `slot`.
    pub open spec fn sp_in_bounds(self, slot: int, sp: int) -> bool {
        self.stacks.base_of(slot) + 16 <= sp <= self.stacks.base_of(slot) + STACK_SIZE - 16
    }

    /// Every thread's saved stack pointer lies inside its own stack.
    pub open spec fn stacks_in_bounds(self) -> bool {
        forall|slot: int|
            0 <= slot < MAX_THREADS ==> (#[trigger] self.threads[slot] matches Some(t)
                ==> self.sp_in_bounds(slot, t.context.stack_addr as int))
    }

    /// The idle thread, once spawned, holds its slot and has not exited.
    pub open spec fn idle_alive(self) -> bool {
        self.idle matches Some(idle) ==> (self.threads[idle as int] matches Some(t) && t.state
            != ThreadState::Exited)
    }

    /// Whether `step` can be taken: what the operation asks of the state.
    pub open spec fn enabled(self, step: Step) -> bool {
        match step {
            Step::SpawnIdle(_) => self.idle is None && self.free_slot() is Some,
            Step::Spawn(_) => self.free_slot() is Some,
            Step::Schedule => self.current is Some && self.idle is Some,
            Step::Sleep(_) => self.current is Some,
            Step::Exit => self.current is Some,
            Step::Tick => true,
            Step::Saved { slot, sp } => slot < MAX_THREADS && self.threads[slot as int] is Some
                && self.sp_in_bounds(slot as int, sp as int),
        }
    }

    /// The state that `step` leads to.
    pub open spec fn after(self, step: Step) -> SchedState {
        match step {
            Step::SpawnIdle(thread_fn) => self.with_idle(thread_fn),
            Step::Spawn(thread_fn) => self.with_thread(thread_fn),
            Step::Schedule => self.scheduled(),
            Step::Sleep(ms) => self.slept(ms),
            Step::Exit => self.exited(),
            Step::Tick => self.ticked(),
            Step::Saved { slot, sp } => {
                let t = self.threads[slot as int].unwrap();
                SchedState {
                    threads: self.threads.update(
                        slot as int,
                        Some(Thread { context: ThreadContext { stack_addr: sp }, ..t }),
                    ),
                    ..self
                }
            },
        }
    }

    /// The state after `steps`, taken in order; nothing where one of them
    /// cannot be taken.
    pub open spec fn run(self, steps: Seq<Step>) -> Option<SchedState>
        decreases steps.len(),
    {
        if steps.len() == 0 {
            Some(self)
        } else {
            match self.run(steps.drop_last()) {
                Some(s) => if s.enabled(steps.last()) {
                    Some(s.after(steps.last()))
                } else {
                    None
                },
                None => None,
            }
        }
    }

    /// In a well-formed state at most one thread is running.
    pub proof fn lemma_wf_one_running(self)
        requires
            self.wf(),
        ensures
            self.at_most_one_running(),
    {
    }

    /// A freshly built thread's stack pointer lies sixteen words below the top
    /// of its stack, inside the bounds.
    pub proof fn lemma_fresh_thread_in_bounds(self, slot: int, thread_fn: ThreadFn)
        requires
            self.stacks.wf(),
            0 <= slot < MAX_THREADS,
        ensures
            self.fresh_thread(slot, thread_fn).context.stack_addr == self.stacks.top_of(slot) - 64,
            self.sp_in_bounds(slot, self.fresh_thread(slot, thread_fn).context.stack_addr as int),
            self.stacks.base_of(slot) + 64 <= self.fresh_thread(slot, thread_fn).context.stack_addr
                < self.stacks.top_of(slot),
    {
        assert(self.stacks.top_of(slot) % 8 == 0) by {
            assert(slot == 0 || slot == 1 || slot == 2 || slot == 3);
        }
    }

    /// Every transition keeps the state well formed.
    pub proof fn lemma_step_wf(self, step: Step)
        requires
            self.wf(),
            self.enabled(step),
        ensures
            self.after(step).wf(),
    {
        match step {
            Step::SpawnIdle(thread_fn) => self.lemma_with_idle_wf(thread_fn),
            Step::Spawn(thread_fn) => self.lemma_with_thread_wf(thread_fn),
            Step::Schedule => self.lemma_scheduled_wf(),
            Step::Sleep(ms) => self.lemma_slept_wf(ms),
            Step::Exit => self.lemma_exited_wf(),
            Step::Tick => self.lemma_ticked_wf(),
            Step::Saved { slot, sp } => {
                let after = self.after(step);
                assert forall|other: int| #[trigger]
                    after.is_running(other) implies after.current == Some(other as usize) by {
                    assert(self.is_running(other));
                }
            },
        }
    }

    /// Every transition keeps the saved stack pointers inside their stacks.
    pub proof fn lemma_step_stacks_in_bounds(self, step: Step)
        requires
            self.wf(),
            self.stacks_in_bounds(),
            self.enabled(step),
        ensures
            self.after(step).stacks_in_bounds(),
    {
        let after = self.after(step);
        match step {
            Step::SpawnIdle(thread_fn) | Step::Spawn(thread_fn) => {
                self.lemma_first_free_is_free(0);
                self.lemma_fresh_thread_in_bounds(self.free_slot().unwrap() as int, thread_fn);
            },
            Step::Schedule => {
                self.lemma_pick_next();
            },
            _ => {},
        }
        assert forall|slot: int| 0 <= slot < MAX_THREADS implies (
        #[trigger] after.threads[slot] matches Some(t) ==> after.sp_in_bounds(
            slot,
            t.context.stack_addr as int,
        )) by {
            // a slot holds a fresh thread, a stack pointer just stored, or the
            // stack pointer it held before
            assert(self.threads[slot] matches Some(t) ==> self.sp_in_bounds(
                slot,
                t.context.stack_addr as int,
            ));
        }
    }

    /// After a scheduling pass that switches, the thread switched to is the
    /// running, current one, and the thread switched from is not running: it
    /// is ready if it was running, has given up its slot if it had exited,
    /// and is otherwise as it was, ready or blocked.
    pub proof fn lemma_switch_pair(self)
        requires
            self.wf(),
            self.current is Some,
            self.idle is Some,
            self.decision() is Some,
        ensures
            ({
                let (prev, next) = self.decision().unwrap();
                let before = self.threads[prev as int].unwrap();
                let after = self.scheduled();
                &&& Some(prev) == self.current
                &&& prev != next
                &&& self.is_ready(next as int)
                &&& after.current == Some(next)
                &&& after.is_running(next as int)
                &&& !after.is_running(prev as int)
                &&& after.threads[prev as int] == demoted(before)
                &&& after.threads[prev as int] is None <==> before.state == ThreadState::Exited
                &&& after.threads[prev as int] matches Some(t) ==> (t.state == ThreadState::Ready
                    || t.state is Blocked)
                &&& before.state == ThreadState::Running ==> after.is_ready(prev as int)
            }),
    {
        self.lemma_pick_next();
        let (prev, next) = self.decision().unwrap();
        self.lemma_switched_wf(next as int);
    }

    /// A tick advances the counter by the tick period, modulo its range.
    pub proof fn lemma_tick_advances(self)
        ensures
            self.ticked().ticks == (self.ticks + SYSTICK_FREQ_MS) % (usize::MAX + 1),
            self.ticks + SYSTICK_FREQ_MS <= usize::MAX ==> self.ticked().ticks == self.ticks
                + SYSTICK_FREQ_MS,
            self.ticks + SYSTICK_FREQ_MS > usize::MAX ==> self.ticked().ticks == self.ticks
                + SYSTICK_FREQ_MS - usize::MAX - 1,
    {
        lemma_wrap_once(self.ticks + SYSTICK_FREQ_MS);
    }

    /// A sleeper is never picked, and a tick that leaves the counter short of
    /// its deadline, by no more than half the counter's range, leaves it
    /// asleep.
    pub proof fn lemma_sleeper_not_picked(self, slot: int, deadline: usize)
        requires
            self.wf(),
            self.current is Some,
            self.idle is Some,
            0 <= slot < MAX_THREADS,
            self.threads[slot] matches Some(t) && t.state == ThreadState::Blocked(
                BlockReason::Sleep(deadline),
            ),
        ensures
            self.pick_next() != Some(slot as usize),
            !deadline_reached(self.ticked().ticks, deadline) ==> {
                &&& self.ticked().threads[slot] == self.threads[slot]
                &&& self.ticked().pick_next() != Some(slot as usize)
            },
            deadline_reached(self.ticked().ticks, deadline) ==> self.ticked().is_ready(slot),
            self.ticked().ticks < deadline && deadline - self.ticked().ticks <= usize::MAX / 2 + 1
                ==> !deadline_reached(self.ticked().ticks, deadline),
    {
        self.lemma_pick_next();
        self.lemma_ticked_wf();
        self.ticked().lemma_pick_next();
    }

    /// State after `count` ticks of the system timer.
    pub open spec fn ticked_n(self, count: nat) -> SchedState
        decreases count,
    {
        if count == 0 {
            self
        } else {
            self.ticked_n((count - 1) as nat).ticked()
        }
    }

    /// A thread that goes to sleep for `ms` milliseconds stays asleep through
    /// every tick that comes before `ms` milliseconds have passed, and is
    /// ready after the first tick that comes at or after them. A sleep of zero
    /// ends with the next tick. Stated for sleeps and waits of up to half the
    /// counter's range.
    pub proof fn lemma_sleeper_wakes_on_time(self, ms: usize, count: nat)
        requires
            self.wf(),
            self.current is Some,
            ms <= usize::MAX / 2,
            count * SYSTICK_FREQ_MS <= usize::MAX / 2,
        ensures
            ({
                let curr = self.current.unwrap() as int;
                let asleep = self.slept(ms);
                let after = asleep.ticked_n(count);
                &&& after.wf()
                &&& after.current == self.current
                &&& after.ticks == (self.ticks + count * SYSTICK_FREQ_MS) % (usize::MAX + 1)
                &&& if count >= 1 && count * SYSTICK_FREQ_MS >= ms {
                    after.is_ready(curr)
                } else {
                    after.threads[curr] == asleep.threads[curr]
                }
            }),
        decreases count,
    {
        let asleep = self.slept(ms);
        self.lemma_slept_wf(ms);
        lemma_wrap_once(self.ticks + count * SYSTICK_FREQ_MS);
        if count > 0 {
            let before = asleep.ticked_n((count - 1) as nat);
            assert((count - 1) * SYSTICK_FREQ_MS == count * SYSTICK_FREQ_MS - SYSTICK_FREQ_MS);
            self.lemma_sleeper_wakes_on_time(ms, (count - 1) as nat);
            lemma_wrap_once(self.ticks + (count - 1) * SYSTICK_FREQ_MS);
            before.lemma_ticked_wf();
            assert(deadline_reached(before.ticked().ticks, ticks_after(self.ticks, ms)) <==> count
                * SYSTICK_FREQ_MS >= ms);
        }
    }

    /// The slot of an exited thread is cleared by the scheduling pass that
    /// switches away from it, and a later spawn can take it.
    pub proof fn lemma_exited_slot_reclaimed(self)
        requires
            self.wf(),
            self.current is Some,
            self.idle is Some,
            self.threads[self.current.unwrap() as int].unwrap().state == ThreadState::Exited,
            self.decision() is Some,
        ensures
            self.scheduled().threads[self.current.unwrap() as int] is None,
            self.idle != self.current ==> {
                &&& self.scheduled().is_free(self.current.unwrap() as int)
                &&& self.scheduled().free_slot() matches Some(slot)
                &&& slot <= self.current.unwrap()
            },
    {
        self.lemma_pick_next();
        let after = self.scheduled();
        after.lemma_first_free_is_free(0);
        if self.idle != self.current {
            assert(after.is_free(self.current.unwrap() as int));
        }
    }

    /// The idle thread is picked exactly when it is ready, is not the current
    /// thread, and no thread other than it and the current one is ready.
    pub proof fn lemma_idle_picked_iff(self)
        requires
            self.wf(),
            self.current is Some,
            self.idle is Some,
        ensures
            self.pick_next() == self.idle <==> {
                &&& self.idle != self.current
                &&& self.is_ready(self.idle.unwrap() as int)
                &&& forall|slot: int|
                    0 <= slot < MAX_THREADS && slot != self.current.unwrap() && slot
                        != self.idle.unwrap() ==> !#[trigger] self.is_ready(slot)
            },
    {
        let curr = self.current.unwrap() as int;
        let idle = self.idle.unwrap() as int;
        self.lemma_scan(curr, 1);
        match self.scan(curr, 1) {
            Some(next) => {
                // a user thread is ready, and it is picked
                assert(self.is_ready(next as int));
            },
            None => {
                assert forall|slot: int|
                    0 <= slot < MAX_THREADS && slot != curr && slot != idle implies !#[trigger] self.is_ready(
                    slot,
                ) by {
                    // every slot but the current one is met by the scan
                    let j = (slot - curr + MAX_THREADS) % (MAX_THREADS as int);
                    assert(!self.candidate(Self::slot_after(curr, j)));
                }
            },
        }
    }

    /// Round-robin order: the first ready user thread met going round the
    /// table from the current one is the thread picked.
    pub proof fn lemma_pick_round_robin(self, offset: int)
        requires
            self.wf(),
            self.current is Some,
            self.idle is Some,
            1 <= offset < MAX_THREADS,
            self.candidate(Self::slot_after(self.current.unwrap() as int, offset)),
            forall|j: int|
                1 <= j < offset ==> !self.candidate(
                    #[trigger] Self::slot_after(self.current.unwrap() as int, j),
                ),
        ensures
            self.pick_next() == Some(
                Self::slot_after(self.current.unwrap() as int, offset) as usize,
            ),
    {
        let curr = self.current.unwrap() as int;
        self.lemma_scan(curr, 1);
        match self.scan(curr, 1) {
            Some(next) => {
                let k = choose|k: int| #[trigger] self.first_candidate_at(curr, 1, k, next as int);
                if k < offset {
                    assert(!self.candidate(Self::slot_after(curr, k)));
                } else if offset < k {
                    assert(!self.candidate(Self::slot_after(curr, offset)));
                }
            },
            None => {
                assert(!self.candidate(Self::slot_after(curr, offset)));
            },
        }
    }

    /// Every transition but the exit of the idle thread itself keeps the idle
    /// thread alive.
    pub proof fn lemma_step_idle_alive(self, step: Step)
        requires
            self.wf(),
            self.idle_alive(),
            self.enabled(step),
            step is Exit ==> self.current != self.idle,
        ensures
            self.after(step).idle_alive(),
    {
        match step {
            Step::SpawnIdle(_) => {
                self.lemma_first_free_is_free(0);
            },
            Step::Spawn(_) => {
                self.lemma_first_free_is_free(0);
            },
            Step::Schedule => {
                self.lemma_pick_next();
            },
            _ => {},
        }
    }

    /// Every state reached from the empty scheduler is well formed, has at
    /// most one running thread, and keeps each saved stack pointer inside its
    /// thread's stack.
    pub proof fn theorem_reachable(stacks: StackPool, trampoline: u32, steps: Seq<Step>)
        requires
            stacks.wf(),
            SchedState::empty(stacks, trampoline).run(steps) is Some,
        ensures
            SchedState::empty(stacks, trampoline).run(steps).unwrap().wf(),
            SchedState::empty(stacks, trampoline).run(steps).unwrap().at_most_one_running(),
            SchedState::empty(stacks, trampoline).run(steps).unwrap().stacks_in_bounds(),
        decreases steps.len(),
    {
        let init = SchedState::empty(stacks, trampoline);
        if steps.len() > 0 {
            Self::theorem_reachable(stacks, trampoline, steps.drop_last());
            let before = init.run(steps.drop_last()).unwrap();
            before.lemma_step_wf(steps.last());
            before.lemma_step_stacks_in_bounds(steps.last());
        }
    }

    /// Whether the idle thread never exits in the course of `steps`: none of
    /// the exits is taken while the idle thread is the current one.
    pub open spec fn idle_never_exits(self, steps: Seq<Step>) -> bool {
        forall|k: int|
            0 <= k < steps.len() && #[trigger] steps[k] is Exit ==> (self.run(steps.take(k))
                matches Some(s) ==> s.current != s.idle)
    }

    /// As long as the idle thread does not itself exit, every state reached
    /// from the empty scheduler holds it alive: once spawned it keeps its slot
    /// and is never exited.
    pub proof fn theorem_idle_alive(stacks: StackPool, trampoline: u32, steps: Seq<Step>)
        requires
            stacks.wf(),
            SchedState::empty(stacks, trampoline).run(steps) is Some,
            SchedState::empty(stacks, trampoline).idle_never_exits(steps),
        ensures
            SchedState::empty(stacks, trampoline).run(steps).unwrap().idle_alive(),
        decreases steps.len(),
    {
        let init = SchedState::empty(stacks, trampoline);
        if steps.len() > 0 {
            let earlier = steps.drop_last();
            assert forall|k: int| 0 <= k < earlier.len() && #[trigger] earlier[k] is Exit implies (
            init.run(earlier.take(k)) matches Some(s) ==> s.current != s.idle) by {
                assert(steps[k] is Exit);
                assert(earlier.take(k) =~= steps.take(k));
            }
            Self::theorem_idle_alive(stacks, trampoline, earlier);
            Self::theorem_reachable(stacks, trampoline, earlier);
            let before = init.run(earlier).unwrap();
            if steps.last() is Exit {
                assert(steps[steps.len() - 1] is Exit);
                assert(steps.take(steps.len() - 1) =~= earlier);
            }
            before.lemma_step_idle_alive(steps.last());
        }
    }
}

} // verus!
