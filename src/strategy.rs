use vstd::prelude::*;

verus! {

/// Controls in which cases a guard's cleanup runs.
///
/// A strategy holds no state: its decision depends only on whether the
/// thread is unwinding from a failure when the guard's scope ends. That fact
/// is read by whoever finalizes the guard; while a failure is raised inside
/// a cleanup that already runs during unwinding, what the thread reports is
/// up to the runtime.
pub trait Strategy {
    /// Whether the cleanup fires at a scope exit, given whether the thread is
    /// unwinding from a failure at that moment.
    spec fn fires(unwinding: bool) -> bool;

    /// Return `true` if the guard's cleanup should run at a scope exit where
    /// the thread is unwinding exactly when `unwinding` is `true`.
    fn should_run(unwinding: bool) -> (r: bool)
        ensures
            r == Self::fires(unwinding),
    ;
}

/// Always run on scope exit: on regular exit from a scope or on unwinding
/// from a failure.
#[derive(Debug)]
pub struct Always;

/// Run on scope exit through unwinding only.
#[derive(Debug)]
pub struct OnUnwind;

/// Run on regular scope exit only, when not unwinding.
#[derive(Debug)]
pub struct OnSuccess;

impl Strategy for Always {
    open spec fn fires(unwinding: bool) -> bool {
        true
    }

    fn should_run(_unwinding: bool) -> (r: bool) {
        true
    }
}

impl Strategy for OnUnwind {
    open spec fn fires(unwinding: bool) -> bool {
        unwinding
    }

    fn should_run(unwinding: bool) -> (r: bool) {
        unwinding
    }
}

impl Strategy for OnSuccess {
    open spec fn fires(unwinding: bool) -> bool {
        !unwinding
    }

    fn should_run(unwinding: bool) -> (r: bool) {
        !unwinding
    }
}

/// `Always` fires at every scope exit, whether it is regular or unwinding.
pub proof fn always_fires(unwinding: bool)
    ensures
        <Always as Strategy>::fires(unwinding),
{
}

/// `OnSuccess` fires at a regular scope exit and never at an unwinding one.
pub proof fn on_success_fires_iff_regular_exit(unwinding: bool)
    ensures
        <OnSuccess as Strategy>::fires(unwinding) <==> !unwinding,
{
}

/// `OnUnwind` is the inverse of `OnSuccess`: at every scope exit exactly one
/// of the two fires.
pub proof fn on_unwind_inverse_of_on_success(unwinding: bool)
    ensures
        <OnUnwind as Strategy>::fires(unwinding) <==> unwinding,
        <OnUnwind as Strategy>::fires(unwinding) != <OnSuccess as Strategy>::fires(unwinding),
{
}

} // verus!
