//! Decisions of the exception handlers: what a pending switch does, and what a
//! fault status word says.

use vstd::prelude::*;
use crate::memory::{mpu_program_thread, stack_region, RegionSetting};
use crate::scheduler::Scheduler;
use crate::thread::EXC_RETURN;

verus! {

/// A context switch to perform: program `region` for the stack of `next`, then
/// save the registers of `prev`, restore those of `next` and leave the
/// exception through `exc_return`.
#[derive(Copy, Clone, PartialEq, Eq, Structural, Debug)]
pub struct SwitchPlan {
    pub prev: usize,
    pub next: usize,
    pub region: RegionSetting,
    pub exc_return: u32,
}

/// Handles a pending switch: one scheduling pass and, where it picks another
/// thread, the plan of the switch to it.
pub fn handle_pend_sv<S: Scheduler>(sched: &mut S) -> (plan: Option<SwitchPlan>)
    requires
        old(sched)@.wf(),
        old(sched)@.current is Some,
        old(sched)@.idle is Some,
    ensures
        final(sched)@ == old(sched)@.scheduled(),
        final(sched)@.wf(),
        match old(sched)@.decision() {
            Some((prev, next)) => plan == Some(
                SwitchPlan {
                    prev,
                    next,
                    region: stack_region(old(sched)@.stacks, next as int),
                    exc_return: EXC_RETURN,
                },
            ),
            None => plan is None,
        },
{
    match sched.schedule() {
        Some((prev, next)) => {
            let (stack_base, stack_size) = sched.get_current_thread_stack();
            let region: RegionSetting = mpu_program_thread(stack_base, stack_size);
            Some(SwitchPlan { prev, next, region, exc_return: EXC_RETURN })
        },
        None => None,
    }
}

/// Which fault address registers hold a valid address.
#[derive(Copy, Clone, PartialEq, Eq, Structural, Debug)]
pub struct FaultStatus {
    /// MMFAR holds the address of a MemManage fault.
    pub mmfar_valid: bool,
    /// BFAR holds the address of a bus fault.
    pub bfar_valid: bool,
}

/// Reads the validity bits of the configurable fault status register: bit 7
/// for MMFAR, bit 15 for BFAR.
pub fn fault_status(cfsr: u32) -> (status: FaultStatus)
    ensures
        status.mmfar_valid == ((cfsr as int / 128) % 2 == 1),
        status.bfar_valid == ((cfsr as int / 32768) % 2 == 1),
{
    let mmfar_valid: bool = (cfsr & (1u32 << 7)) != 0;
    let bfar_valid: bool = (cfsr & (1u32 << 15)) != 0;
    assert(((cfsr & (1u32 << 7)) != 0) == ((cfsr / 128) % 2 == 1)) by (bit_vector);
    assert(((cfsr & (1u32 << 15)) != 0) == ((cfsr / 32768) % 2 == 1)) by (bit_vector);
    FaultStatus { mmfar_valid, bfar_valid }
}

} // verus!
