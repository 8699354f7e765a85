use vstd::prelude::*;

use crate::strategy::{Always, OnSuccess, OnUnwind, Strategy};

verus! {

/// Where a guard stands in its life.
pub enum Phase {
    /// The guard holds its value and its cleanup; the cleanup is pending.
    Armed,
    /// The value was taken back and the cleanup dropped without running.
    Defused,
    /// The guard is gone: its cleanup ran or was skipped, as the strategy
    /// decided, or it had been defused before.
    Finalized,
}

/// Something that happens to a guard.
pub enum Event {
    /// The value is taken back out of the guard (`ScopeGuard::into_inner`).
    Defuse,
    /// The scope that owns the guard ends; the flag tells whether a failure
    /// is propagating through it (`ScopeGuard::finalize`).
    ScopeExit(bool),
}

/// The phase a guard in `phase` reaches when `event` happens to it.
///
/// A scope exit finalizes an armed guard and turns a defused one into a
/// finalized one with nothing left to do; nothing leaves the finalized phase,
/// and a guard can be defused only while it is armed.
pub open spec fn next(phase: Phase, event: Event) -> Phase {
    match (phase, event) {
        (Phase::Armed, Event::Defuse) => Phase::Defused,
        (Phase::Armed, Event::ScopeExit(_)) => Phase::Finalized,
        (Phase::Defused, Event::ScopeExit(_)) => Phase::Finalized,
        (p, _) => p,
    }
}

/// Whether `event` calls the cleanup of a guard in `phase` whose strategy is
/// `S`: only the scope exit of an armed guard can, and then only if `S` fires.
pub open spec fn runs_cleanup<S: Strategy>(phase: Phase, event: Event) -> bool {
    &&& phase == Phase::Armed
    &&& match event {
        Event::ScopeExit(unwinding) => S::fires(unwinding),
        Event::Defuse => false,
    }
}

/// How many times the cleanup of a guard that starts in `phase` is called
/// over `events`, in order.
pub open spec fn cleanup_runs<S: Strategy>(phase: Phase, events: Seq<Event>) -> nat
    decreases events.len(),
{
    if events.len() == 0 {
        0
    } else {
        (if runs_cleanup::<S>(phase, events[0]) { 1nat } else { 0nat }) + cleanup_runs::<S>(
            next(phase, events[0]),
            events.drop_first(),
        )
    }
}

/// A guard that is no longer armed never calls its cleanup again.
proof fn lemma_spent_guard_never_runs<S: Strategy>(phase: Phase, events: Seq<Event>)
    requires
        phase != Phase::Armed,
    ensures
        cleanup_runs::<S>(phase, events) == 0,
    decreases events.len(),
{
    if events.len() > 0 {
        lemma_spent_guard_never_runs::<S>(next(phase, events[0]), events.drop_first());
    }
}

/// No sequence of events calls the cleanup of a guard more than once.
pub proof fn cleanup_runs_at_most_once<S: Strategy>(events: Seq<Event>)
    ensures
        cleanup_runs::<S>(Phase::Armed, events) <= 1,
{
    if events.len() > 0 {
        lemma_spent_guard_never_runs::<S>(next(Phase::Armed, events[0]), events.drop_first());
    }
}

/// If the first thing that happens to a guard is the end of its scope, its
/// cleanup is called exactly once when the strategy fires for that exit and
/// never otherwise, whatever happens afterwards.
pub proof fn first_scope_exit_decides<S: Strategy>(unwinding: bool, later: Seq<Event>)
    ensures
        cleanup_runs::<S>(Phase::Armed, seq![Event::ScopeExit(unwinding)] + later) == if S::fires(
            unwinding,
        ) {
            1nat
        } else {
            0nat
        },
{
    let events = seq![Event::ScopeExit(unwinding)] + later;
    assert(events.drop_first() =~= later);
    lemma_spent_guard_never_runs::<S>(Phase::Finalized, later);
}

/// A guard that is defused before its scope ends never calls its cleanup,
/// whatever its strategy and whatever happens afterwards.
pub proof fn defused_guard_never_runs<S: Strategy>(later: Seq<Event>)
    ensures
        cleanup_runs::<S>(Phase::Armed, seq![Event::Defuse] + later) == 0,
{
    let events = seq![Event::Defuse] + later;
    assert(events.drop_first() =~= later);
    lemma_spent_guard_never_runs::<S>(Phase::Defused, later);
}

/// A guard built with `Always` and never defused calls its cleanup exactly
/// once, at the end of its scope, whether that end is regular or unwinding.
pub proof fn always_guard_runs_once(unwinding: bool, later: Seq<Event>)
    ensures
        cleanup_runs::<Always>(Phase::Armed, seq![Event::ScopeExit(unwinding)] + later) == 1,
{
    first_scope_exit_decides::<Always>(unwinding, later);
}

/// A guard built with `OnSuccess` calls its cleanup once if its scope ends
/// regularly, and never if the scope is left by unwinding.
pub proof fn on_success_guard_runs_on_regular_exit(unwinding: bool, later: Seq<Event>)
    ensures
        cleanup_runs::<OnSuccess>(Phase::Armed, seq![Event::ScopeExit(unwinding)] + later) == if unwinding {
            0nat
        } else {
            1nat
        },
{
    first_scope_exit_decides::<OnSuccess>(unwinding, later);
}

/// A guard built with `OnUnwind` calls its cleanup once if its scope is left
/// by unwinding, and never if the scope ends regularly.
pub proof fn on_unwind_guard_runs_on_unwinding_exit(unwinding: bool, later: Seq<Event>)
    ensures
        cleanup_runs::<OnUnwind>(Phase::Armed, seq![Event::ScopeExit(unwinding)] + later) == if unwinding {
            1nat
        } else {
            0nat
        },
{
    first_scope_exit_decides::<OnUnwind>(unwinding, later);
}

} // verus!
