use core::marker::PhantomData;
use core::ops::{Deref, DerefMut};

use vstd::prelude::*;

use crate::lifecycle::{runs_cleanup, Event, Phase};
use crate::strategy::{Always, OnSuccess, OnUnwind, Strategy};

verus! {

/// A scope guard that owns a protected value and a cleanup closure.
///
/// The guard dereferences to the value, so the value can be read and written
/// through it while the guard is alive; the cleanup then sees the value as it
/// stands when the scope ends, not as it was when the guard was built.
///
/// A guard leaves its scope in exactly one of two ways, both of which take it
/// by value, so the cleanup can be reached at most once:
/// - [`ScopeGuard::finalize`], at scope exit: the strategy `S` decides whether
///   the cleanup runs on the value;
/// - [`ScopeGuard::into_inner`], defusing: the value is handed back and the
///   cleanup is dropped without being called.
///
/// The guard has no destructor of its own: one that is simply dropped drops
/// its value and its cleanup without calling the cleanup. To run the cleanup
/// on every scope exit, own the guard in a type whose destructor finalizes it
/// with the thread's unwinding state.
pub struct ScopeGuard<T, F, S = Always> where F: FnOnce(T), S: Strategy {
    value: T,
    dropfn: F,
    strategy: PhantomData<S>,
}

impl<T, F, S> ScopeGuard<T, F, S> where F: FnOnce(T), S: Strategy {
    /// The value the guard holds now.
    pub closed spec fn held(&self) -> T {
        self.value
    }

    /// The cleanup closure the guard holds.
    pub closed spec fn cleanup(&self) -> F {
        self.dropfn
    }

    /// Create a `ScopeGuard` that owns `v` (accessible through deref) and
    /// calls `dropfn` on it when it is finalized, if the strategy `S` decides
    /// so.
    pub fn with_strategy(v: T, dropfn: F) -> (r: ScopeGuard<T, F, S>)
        ensures
            r.held() == v,
            r.cleanup() == dropfn,
    {
        ScopeGuard { value: v, dropfn, strategy: PhantomData }
    }

    /// "Defuse" the guard and extract the value without calling the closure.
    ///
    /// The value is moved out before the closure is dropped, so a closure
    /// whose own destructor fails cannot take the value with it.
    pub fn into_inner(guard: Self) -> (r: T)
        ensures
            r == guard.held(),
    {
        // `value` moves out first; `dropfn` is dropped when this body ends.
        let ScopeGuard { value, dropfn, .. } = guard;
        value
    }

    /// Finalize the guard at the end of its scope.
    ///
    /// `unwinding` tells whether the scope is being left by a failure that is
    /// propagating through it. If the strategy fires for that exit, the
    /// cleanup is called once on the value held at this moment; otherwise the
    /// value and the cleanup are dropped and the cleanup is never called.
    /// Returns whether the cleanup ran.
    ///
    /// If the cleanup itself fails while a failure is already propagating,
    /// what happens is up to the runtime (it typically aborts the process).
    pub fn finalize(guard: Self, unwinding: bool) -> (ran: bool)
        requires
            S::fires(unwinding) ==> guard.cleanup().requires((guard.held(),)),
        ensures
            ran == S::fires(unwinding),
            ran == runs_cleanup::<S>(Phase::Armed, Event::ScopeExit(unwinding)),
            ran ==> guard.cleanup().ensures((guard.held(),), ()),
    {
        let ScopeGuard { value, dropfn, .. } = guard;
        if S::should_run(unwinding) {
            dropfn(value);
            true
        } else {
            false
        }
    }
}

/// Create a new `ScopeGuard` owning `v` and with deferred closure `dropfn`,
/// which runs at every scope exit.
pub fn guard<T, F>(v: T, dropfn: F) -> (r: ScopeGuard<T, F, Always>)
    where F: FnOnce(T)
    ensures
        r.held() == v,
        r.cleanup() == dropfn,
{
    ScopeGuard::with_strategy(v, dropfn)
}

/// Create a new `ScopeGuard` owning `v` and with deferred closure `dropfn`,
/// which runs only at a regular scope exit.
pub fn guard_on_success<T, F>(v: T, dropfn: F) -> (r: ScopeGuard<T, F, OnSuccess>)
    where F: FnOnce(T)
    ensures
        r.held() == v,
        r.cleanup() == dropfn,
{
    ScopeGuard::with_strategy(v, dropfn)
}

/// Create a new `ScopeGuard` owning `v` and with deferred closure `dropfn`,
/// which runs only when the scope is left by unwinding.
pub fn guard_on_unwind<T, F>(v: T, dropfn: F) -> (r: ScopeGuard<T, F, OnUnwind>)
    where F: FnOnce(T)
    ensures
        r.held() == v,
        r.cleanup() == dropfn,
{
    ScopeGuard::with_strategy(v, dropfn)
}

impl<T, F, S> Deref for ScopeGuard<T, F, S> where F: FnOnce(T), S: Strategy {
    type Target = T;

    fn deref(&self) -> (r: &T)
        ensures
            *r == self.held(),
    {
        &self.value
    }
}

impl<T, F, S> DerefMut for ScopeGuard<T, F, S> where F: FnOnce(T), S: Strategy {
    fn deref_mut(&mut self) -> (r: &mut T)
        ensures
            *r == old(self).held(),
            final(self).held() == *final(r),
            final(self).cleanup() == old(self).cleanup(),
    {
        &mut self.value
    }
}

} // verus!
