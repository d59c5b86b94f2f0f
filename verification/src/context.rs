//! Model of the register half of a context switch, and what it makes of the
//! stack that thread construction lays down.
//!
//! The switch itself is a short assembly sequence outside this library. Its
//! effect on the callee-saved registers, the process stack pointer and the
//! stack is stated here, so that the layout of a fresh stack can be checked
//! against it.

use vstd::prelude::*;
use crate::thread::{initial_words, CALLEE_REGS_SIZE, EXC_RETURN, XPSR_THUMB};

verus! {

/// Memory as words by byte address; every address holds a word.
pub type Memory = Map<int, u32>;

/// What a switch moves between the processor and a thread's stack.
pub struct SwitchedRegs {
    /// `r4..r11`, in this order.
    pub callee_saved: Seq<u32>,
    /// Process stack pointer.
    pub psp: int,
}

/// The registers that the hardware pops on return from an exception.
pub struct ExceptionFrame {
    pub r0: u32,
    pub r1: u32,
    pub r2: u32,
    pub r3: u32,
    pub r12: u32,
    pub lr: u32,
    pub pc: u32,
    pub xpsr: u32,
}

/// `mem` after `words` were stored at `addr`, ascending.
pub open spec fn store_words(mem: Memory, addr: int, words: Seq<u32>) -> Memory {
    Map::total(
        |a: int|
            if addr <= a < addr + 4 * words.len() && (a - addr) % 4 == 0 {
                words[(a - addr) / 4]
            } else {
                mem[a]
            },
    )
}

/// The `count` words of `mem` from `addr` on, ascending.
pub open spec fn load_words(mem: Memory, addr: int, count: nat) -> Seq<u32> {
    Seq::new(count, |k: int| mem[addr + 4 * k])
}

/// Switching away: the callee-saved registers are pushed below the process
/// stack pointer, and the new stack pointer is what the thread record keeps.
pub open spec fn switch_out(regs: SwitchedRegs, mem: Memory) -> (Memory, int) {
    let sp = regs.psp - CALLEE_REGS_SIZE;
    (store_words(mem, sp, regs.callee_saved), sp)
}

/// Switching in: the callee-saved registers are popped from the saved stack
/// pointer, which leaves the process stack pointer at the exception frame.
pub open spec fn switch_in(mem: Memory, saved_sp: int) -> SwitchedRegs {
    SwitchedRegs { callee_saved: load_words(mem, saved_sp, 8), psp: saved_sp + CALLEE_REGS_SIZE }
}

/// The exception frame that the hardware pops at `psp`.
pub open spec fn frame_at(mem: Memory, psp: int) -> ExceptionFrame {
    ExceptionFrame {
        r0: mem[psp],
        r1: mem[psp + 4],
        r2: mem[psp + 8],
        r3: mem[psp + 12],
        r12: mem[psp + 16],
        lr: mem[psp + 20],
        pc: mem[psp + 24],
        xpsr: mem[psp + 28],
    }
}

/// The word stored at index `k` is the word at `addr + 4 * k`.
pub proof fn lemma_stored_word(mem: Memory, addr: int, words: Seq<u32>, k: int)
    requires
        0 <= k < words.len(),
    ensures
        store_words(mem, addr, words)[addr + 4 * k] == words[k],
{
    assert((addr + 4 * k - addr) % 4 == 0 && (addr + 4 * k - addr) / 4 == k);
}

/// Words stored are the words loaded back.
pub proof fn lemma_load_stored(mem: Memory, addr: int, words: Seq<u32>)
    ensures
        load_words(store_words(mem, addr, words), addr, words.len()) == words,
{
    let stored = store_words(mem, addr, words);
    assert forall|k: int| 0 <= k < words.len() implies #[trigger] stored[addr + 4 * k]
        == words[k] by {
        lemma_stored_word(mem, addr, words, k);
    }
    assert(load_words(stored, addr, words.len()) =~= words);
}

/// Switching a thread out and in again gives it back its callee-saved
/// registers and its process stack pointer, and leaves the exception frame
/// above them untouched.
pub proof fn lemma_switch_round_trip(regs: SwitchedRegs, mem: Memory)
    requires
        regs.callee_saved.len() == 8,
    ensures
        switch_in(switch_out(regs, mem).0, switch_out(regs, mem).1) == regs,
        frame_at(switch_out(regs, mem).0, regs.psp) == frame_at(mem, regs.psp),
{
    let (after, sp) = switch_out(regs, mem);
    lemma_load_stored(mem, sp, regs.callee_saved);
}

/// The first resumption of a thread built for `fn_addr`: switching in from
/// its initial stack clears `r4..r11` and leaves the process stack pointer at
/// a frame that returns into the trampoline, in Thumb state, with the entry
/// function as its argument.
pub proof fn lemma_first_resumption(mem: Memory, addr: int, fn_addr: u32, trampoline: u32)
    ensures
        switch_in(store_words(mem, addr, initial_words(fn_addr, trampoline)), addr) == (
        SwitchedRegs {
            callee_saved: seq![0u32, 0u32, 0u32, 0u32, 0u32, 0u32, 0u32, 0u32],
            psp: addr + CALLEE_REGS_SIZE,
        }),
        frame_at(
            store_words(mem, addr, initial_words(fn_addr, trampoline)),
            addr + CALLEE_REGS_SIZE,
        ) == (ExceptionFrame {
            r0: fn_addr,
            r1: 0,
            r2: 0,
            r3: 0,
            r12: 0,
            lr: EXC_RETURN,
            pc: trampoline | 1u32,
            xpsr: XPSR_THUMB,
        }),
{
    let words = initial_words(fn_addr, trampoline);
    let stored = store_words(mem, addr, words);
    assert forall|k: int| 0 <= k < 16 implies #[trigger] stored[addr + 4 * k] == words[k] by {
        lemma_stored_word(mem, addr, words, k);
    }
    let zeros = seq![0u32, 0u32, 0u32, 0u32, 0u32, 0u32, 0u32, 0u32];
    assert forall|k: int| 0 <= k < 8 implies load_words(stored, addr, 8)[k] == zeros[k] by {
        assert(stored[addr + 4 * k] == words[k]);
    }
    assert(load_words(stored, addr, 8) =~= zeros);
    assert(stored[addr + 4 * 8] == words[8]);
    assert(stored[addr + 4 * 9] == words[9]);
    assert(stored[addr + 4 * 10] == words[10]);
    assert(stored[addr + 4 * 11] == words[11]);
    assert(stored[addr + 4 * 12] == words[12]);
    assert(stored[addr + 4 * 13] == words[13]);
    assert(stored[addr + 4 * 14] == words[14]);
    assert(stored[addr + 4 * 15] == words[15]);
}

/// A thread that was built, resumed, switched out and switched in again has
/// the registers of its first resumption, the stack pointer that its
/// construction saved, and the exception frame that its construction laid.
pub proof fn lemma_fresh_switch_cycle(mem: Memory, addr: int, fn_addr: u32, trampoline: u32)
    ensures
        ({
            let built = store_words(mem, addr, initial_words(fn_addr, trampoline));
            let first = switch_in(built, addr);
            let (away, saved_sp) = switch_out(first, built);
            &&& saved_sp == addr
            &&& switch_in(away, saved_sp) == first
            &&& frame_at(away, first.psp) == frame_at(built, first.psp)
        }),
{
    let built = store_words(mem, addr, initial_words(fn_addr, trampoline));
    lemma_first_resumption(mem, addr, fn_addr, trampoline);
    lemma_switch_round_trip(switch_in(built, addr), built);
}

} // verus!
