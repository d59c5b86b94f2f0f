//! The system-call layer: the handler table, the requests that the user-side
//! invokers trap with, and the dispatch of a trapped request to its handler.

use vstd::prelude::*;

pub mod numbers;

use crate::syscall::numbers::{EXIT_THREAD, MAX_SYSCALL_ID, SCHEDULER_BOOT, SLEEP_MS, YIELD_NOW};

verus! {

/// The central dispatch table: one optional handler per syscall number.
pub struct SyscallTable<H> {
    pub handlers: [Option<H>; MAX_SYSCALL_ID],
}

impl<H> View for SyscallTable<H> {
    type V = Seq<Option<H>>;

    open spec fn view(&self) -> Seq<Option<H>> {
        self.handlers@
    }
}

/// The handler bound to `id`, if `id` is a syscall number with a binding.
pub open spec fn lookup<H>(handlers: Seq<Option<H>>, id: int) -> Option<H> {
    if 0 <= id < handlers.len() {
        handlers[id]
    } else {
        None
    }
}

/// The table after `func` was bound to `id`.
pub open spec fn registered<H>(handlers: Seq<Option<H>>, id: int, func: H) -> Seq<Option<H>> {
    handlers.update(id, Some(func))
}

impl<H: Copy> SyscallTable<H> {
    /// A table with no handler registered.
    pub fn new() -> (table: Self)
        ensures
            table@ == Seq::new(MAX_SYSCALL_ID as nat, |id: int| None::<H>),
    {
        SyscallTable { handlers: [None;MAX_SYSCALL_ID] }
    }
}

/// Register a handler for `id`, in place of any earlier one.
pub fn register<H: Copy>(table: &mut SyscallTable<H>, id: usize, func: H)
    requires
        id < MAX_SYSCALL_ID,
    ensures
        final(table)@ == registered(old(table)@, id as int, func),
{
    table.handlers[id] = Some(func);
}

/// Look up the handler for `id`.
pub fn get<H: Copy>(table: &SyscallTable<H>, id: usize) -> (handler: Option<H>)
    ensures
        handler == lookup(table@, id as int),
{
    if id < MAX_SYSCALL_ID {
        table.handlers[id]
    } else {
        None
    }
}

/// What a user-side invoker loads before it traps: the syscall number for
/// `r0` and up to two arguments for `r1` and `r2`.
#[derive(Copy, Clone, PartialEq, Eq, Structural, Debug)]
pub struct SvcRequest {
    pub id: usize,
    pub a0: Option<usize>,
    pub a1: Option<usize>,
}

/// A request with no arguments.
pub fn syscall0(id: usize) -> (req: SvcRequest)
    ensures
        req == (SvcRequest { id, a0: None, a1: None }),
{
    SvcRequest { id, a0: None, a1: None }
}

/// A request with one argument.
pub fn syscall1(id: usize, a0: usize) -> (req: SvcRequest)
    ensures
        req == (SvcRequest { id, a0: Some(a0), a1: None }),
{
    SvcRequest { id, a0: Some(a0), a1: None }
}

/// A request with two arguments.
pub fn syscall2(id: usize, a0: usize, a1: usize) -> (req: SvcRequest)
    ensures
        req == (SvcRequest { id, a0: Some(a0), a1: Some(a1) }),
{
    SvcRequest { id, a0: Some(a0), a1: Some(a1) }
}

/// The request that launches the first thread. Issued once, at startup.
pub fn scheduler_boot() -> (req: SvcRequest)
    ensures
        req == (SvcRequest { id: SCHEDULER_BOOT, a0: None, a1: None }),
{
    syscall0(SCHEDULER_BOOT)
}

/// The request by which a thread gives up the processor.
pub fn yield_now() -> (req: SvcRequest)
    ensures
        req == (SvcRequest { id: YIELD_NOW, a0: None, a1: None }),
{
    syscall0(YIELD_NOW)
}

/// The request by which a thread sleeps for `ms` milliseconds.
pub fn sleep_ms(ms: u32) -> (req: SvcRequest)
    ensures
        req == (SvcRequest { id: SLEEP_MS, a0: Some(ms as usize), a1: None }),
{
    syscall1(SLEEP_MS, ms as usize)
}

/// The request by which a thread ends.
pub fn exit_thread() -> (req: SvcRequest)
    ensures
        req == (SvcRequest { id: EXIT_THREAD, a0: None, a1: None }),
{
    syscall0(EXIT_THREAD)
}

/// A trapped request resolved to its handler, with the three argument words
/// to call it with.
pub struct Dispatch<H> {
    pub handler: H,
    pub a1: usize,
    pub a2: usize,
    pub a3: usize,
}

/// Dispatches a trapped request: `id` is the word from `r0`, `a1..a3` those
/// from `r1..r3`. A request for an unregistered `id` is a kernel bug.
pub fn syscall_dispatcher<H: Copy>(
    table: &SyscallTable<H>,
    id: usize,
    a1: usize,
    a2: usize,
    a3: usize,
) -> (call: Dispatch<H>)
    requires
        lookup(table@, id as int) is Some,
    ensures
        Some(call.handler) == lookup(table@, id as int),
        call.a1 == a1,
        call.a2 == a2,
        call.a3 == a3,
{
    let handler: H = get(table, id).unwrap();
    Dispatch { handler, a1, a2, a3 }
}

/// Registering a handler for a syscall number that already has one leaves
/// the table as if only the second registration had been made, and the
/// second handler is the one looked up.
pub proof fn lemma_register_twice<H>(handlers: Seq<Option<H>>, id: int, first: H, second: H)
    requires
        0 <= id < handlers.len(),
    ensures
        registered(registered(handlers, id, first), id, second) == registered(handlers, id, second),
        lookup(registered(registered(handlers, id, first), id, second), id) == Some(second),
{
    assert(registered(registered(handlers, id, first), id, second) =~= registered(
        handlers,
        id,
        second,
    ));
}

/// Registering a handler changes the binding of its own number only.
pub proof fn lemma_register_other<H>(handlers: Seq<Option<H>>, id: int, func: H, other: int)
    requires
        0 <= id < handlers.len(),
        other != id,
    ensures
        lookup(registered(handlers, id, func), id) == Some(func),
        lookup(registered(handlers, id, func), other) == lookup(handlers, other),
{
}

} // verus!
