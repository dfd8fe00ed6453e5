use crate::engine::{call_target, phase_after, to_register_after, BootEvent, Phase};
use vstd::prelude::*;

verus! {

/// The phase reached from `phase`, with `left` names still to resolve, after
/// the engine thread has reported each of `events` in turn.
pub open spec fn phase_after_all<H>(
    phase: Phase,
    left: Seq<Seq<char>>,
    events: Seq<BootEvent<H>>,
) -> Phase
    decreases events.len(),
{
    if events.len() == 0 {
        phase
    } else {
        phase_after_all(
            phase_after(phase, left.len() as int, events[0]),
            to_register_after(phase, left, events[0]),
            events.drop_first(),
        )
    }
}

/// A failed bootstrap is final: whatever the engine thread reports
/// afterwards, the core stays terminated, and so answers every request with
/// `ChannelClosed`.
pub proof fn lemma_failure_is_final<H>(left: Seq<Seq<char>>, events: Seq<BootEvent<H>>)
    ensures
        phase_after_all(Phase::Terminated, left, events) == Phase::Terminated,
    decreases events.len(),
{
    if events.len() > 0 {
        lemma_failure_is_final(left, events.drop_first());
    }
}

/// Once a function has been registered under `name`, a call of `name`
/// reaches that function, whatever was registered before.
pub proof fn lemma_register_then_call<H>(functions: Map<Seq<char>, H>, name: Seq<char>, h: H)
    ensures
        call_target(functions.insert(name, h), name) == Some(h),
{
}

/// A call of a name that was never registered reaches no function: it is
/// answered with an error, not dispatched.
pub proof fn lemma_unregistered_call<H>(functions: Map<Seq<char>, H>, name: Seq<char>)
    requires
        !functions.contains_key(name),
    ensures
        call_target(functions, name) is None,
{
}

} // verus!
