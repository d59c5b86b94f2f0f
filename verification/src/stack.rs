//! Layout of the statically allocated thread stacks.

use vstd::prelude::*;
use crate::scheduler::MAX_THREADS;

verus! {

/// Bytes in each thread stack.
pub const STACK_SIZE: u32 = 1024;

/// The stack pool: `MAX_THREADS` stacks of `STACK_SIZE` bytes each, laid out
/// back to back from `base`. Slot `i` of the thread table runs on stack `i`.
#[derive(Copy, Clone, PartialEq, Eq, Structural, Debug)]
pub struct StackPool {
    /// Address of the first byte of stack 0.
    pub base: u32,
}

impl StackPool {
    /// The pool is eight-byte aligned and ends inside the 32-bit address space.
    pub open spec fn wf(self) -> bool {
        &&& self.base % 8 == 0
        &&& self.base + MAX_THREADS * STACK_SIZE <= u32::MAX
    }

    /// Lowest address of stack `slot`.
    pub open spec fn base_of(self, slot: int) -> int {
        self.base + slot * STACK_SIZE
    }

    /// Initial top of stack `slot`: one past its highest byte.
    pub open spec fn top_of(self, slot: int) -> int {
        self.base_of(slot) + STACK_SIZE
    }

    /// A pool at `base`, or nothing where `base` is misaligned or the pool would
    /// run past the end of the address space.
    pub fn new(base: u32) -> (pool: Option<StackPool>)
        ensures
            pool == if (StackPool { base }).wf() {
                Some(StackPool { base })
            } else {
                None::<StackPool>
            },
    {
        if base % 8 == 0 && base <= u32::MAX - 4 * STACK_SIZE {
            Some(StackPool { base })
        } else {
            None
        }
    }

    /// Lowest address of stack `slot`.
    pub fn stack_base(&self, slot: usize) -> (addr: u32)
        requires
            self.wf(),
            slot < MAX_THREADS,
        ensures
            addr == self.base_of(slot as int),
    {
        self.base + (slot as u32) * STACK_SIZE
    }

    /// Initial top of stack `slot`.
    pub fn stack_top(&self, slot: usize) -> (addr: u32)
        requires
            self.wf(),
            slot < MAX_THREADS,
        ensures
            addr == self.top_of(slot as int),
            addr % 8 == 0,
    {
        let addr: u32 = self.base + (slot as u32) * STACK_SIZE + STACK_SIZE;
        assert(addr % 8 == 0) by {
            assert(self.base % 8 == 0);
            assert(slot == 0 || slot == 1 || slot == 2 || slot == 3);
        }
        addr
    }
}

} // verus!
