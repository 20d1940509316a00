//! The current-trace slot of one execution context.
use vstd::prelude::*;
use crate::types::Trace;

verus! {

/// The most recent trace captured in one execution context. Each context owns
/// its slot, so what one context stores is never seen by another.
pub struct TraceSlot {
    pub current: Option<Trace>,
}

impl TraceSlot {
    /// An empty slot.
    pub fn new() -> (r: TraceSlot)
        ensures
            r.current is None,
    {
        TraceSlot { current: None }
    }
}

/// Stores `trace` in the slot, replacing what it held.
pub fn set_current_trace(slot: &mut TraceSlot, trace: Trace)
    ensures
        final(slot).current == Some(trace),
{
    slot.current = Some(trace);
}

/// Hands out what the slot holds and leaves it empty.
pub fn take_current_trace(slot: &mut TraceSlot) -> (r: Option<Trace>)
    ensures
        r == old(slot).current,
        final(slot).current is None,
{
    slot.current.take()
}

/// The slots of all execution contexts, keyed by context, after a run of
/// calls. Each call is `(context, value)`: `set_current_trace(t)` in that
/// context leaves `Some(t)` in its slot and `take_current_trace` leaves `None`,
/// as their contracts state, and no call touches another context's slot.
pub open spec fn slots_after(
    slots: Map<int, Option<Trace>>,
    calls: Seq<(int, Option<Trace>)>,
) -> Map<int, Option<Trace>>
    decreases calls.len(),
{
    if calls.len() == 0 {
        slots
    } else {
        slots_after(slots.insert(calls[0].0, calls[0].1), calls.drop_first())
    }
}

/// Contexts are isolated: however the calls of other contexts interleave, a
/// context's slot keeps what that context last stored, so a trace set in one
/// context is taken there and never in another.
pub proof fn contexts_are_isolated(
    slots: Map<int, Option<Trace>>,
    calls: Seq<(int, Option<Trace>)>,
    context: int,
)
    requires
        forall|i: int| 0 <= i < calls.len() ==> (#[trigger] calls[i]).0 != context,
    ensures
        slots_after(slots, calls).dom().contains(context) == slots.dom().contains(context),
        slots.dom().contains(context) ==> slots_after(slots, calls)[context] == slots[context],
    decreases calls.len(),
{
    if calls.len() > 0 {
        let next = slots.insert(calls[0].0, calls[0].1);
        let rest = calls.drop_first();
        assert forall|i: int| 0 <= i < rest.len() implies (#[trigger] rest[i]).0 != context by {
            assert(rest[i] == calls[i + 1]);
        }
        contexts_are_isolated(next, rest, context);
    }
}

} // verus!
