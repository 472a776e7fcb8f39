//! The guarded recursive handler: the target-side entry point logic.
//!
//! A state machine over a bounded work counter. On entry the counter is
//! checked against the policy ceiling before any work happens; a counter
//! over the ceiling is rejected with `PolicyViolation` and no trace event is
//! recorded. Otherwise one unit of observable work (a trace event) is
//! performed per call and the handler re-invokes itself with the counter
//! decremented, until the counter reaches its terminal value.

use vstd::prelude::*;

use crate::errors::InvocationError;

verus! {

/// The reference policy ceiling for the work counter and so for the
/// recursion depth. A handler may be run under another ceiling by passing
/// it to `handle`.
pub const MAX_WORK: u8 = 10;

/// The states of the handler: working through a counter value, rejected by
/// the entry guard, or finished.
#[derive(Clone, Copy, Debug, PartialEq, Eq, Structural)]
pub enum HandlerState {
    Active(u8),
    Rejected,
    Done,
}

/// One diagnostic trace line: a unit of observable work at a counter value,
/// or a delivered payload value.
#[derive(Clone, Copy, Debug, PartialEq, Eq, Structural)]
pub enum TraceEvent {
    Work { counter: u8 },
    Delivered { value: u64 },
}

/// How many units of work an accepted run with initial counter `n0`
/// performs: one per counter value passed through, and a single unit when
/// the counter starts at its terminal value.
pub open spec fn work_units(n0: u8) -> nat {
    if n0 == 0 {
        1
    } else {
        n0 as nat
    }
}

/// The exact trace an accepted run with initial counter `n0` records: one
/// work event per call, counters descending to the terminal value.
pub open spec fn work_trace(n0: u8) -> Seq<TraceEvent>
    decreases n0,
{
    if n0 <= 1 {
        seq![TraceEvent::Work { counter: n0 }]
    } else {
        seq![TraceEvent::Work { counter: n0 }] + work_trace((n0 - 1) as u8)
    }
}

/// An accepted run records exactly as many work events as it owes units of
/// work.
pub proof fn lemma_work_trace_len(n0: u8)
    ensures
        work_trace(n0).len() == work_units(n0),
    decreases n0,
{
    if n0 > 1 {
        lemma_work_trace_len((n0 - 1) as u8);
    }
}

/// Runs the guarded handler with initial counter `n0` under the policy
/// ceiling `max`.
///
/// The guard is checked on entry, before any work: a counter over the
/// ceiling fails with `PolicyViolation` and leaves the trace untouched. An
/// admitted counter performs one unit of work and re-invokes the handler
/// with the counter decremented; each re-invocation passes the same guard.
/// An admitted run always ends in `Done` with exactly the owed work
/// recorded.
pub fn handle(n0: u8, max: u8, trace: &mut Vec<TraceEvent>) -> (r: Result<
    HandlerState,
    InvocationError,
>)
    ensures
        n0 > max ==> (r matches Err(e) && e == InvocationError::PolicyViolation && final(trace)@
            == old(trace)@),
        n0 <= max ==> (r matches Ok(s) && s == HandlerState::Done && final(trace)@ == old(trace)@
            + work_trace(n0)),
    decreases n0,
{
    if n0 > max {
        return Err(InvocationError::PolicyViolation);
    }
    trace.push(TraceEvent::Work { counter: n0 });
    if n0 > 1 {
        let r = handle(n0 - 1, max, trace);
        proof {
            assert(trace@ =~= old(trace)@ + work_trace(n0));
        }
        r
    } else {
        proof {
            assert(trace@ =~= old(trace)@ + work_trace(n0));
        }
        Ok(HandlerState::Done)
    }
}

} // verus!
