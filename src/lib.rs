//! A scope guard: a value paired with a cleanup closure that runs once when
//! the guard's scope ends, unless the guard is defused first.
//!
//! Whether the cleanup runs at scope exit is decided by a [`Strategy`]
//! from one fact about that moment: whether the thread is unwinding from a
//! failure. The guard is finalized by [`ScopeGuard::finalize`], which is handed
//! that fact; an owner that ties finalization to its own destructor queries
//! the unwinding state there and passes it on.

mod lifecycle;
mod scope_guard;
mod strategy;



pub use scope_guard::{guard, guard_on_success, guard_on_unwind, ScopeGuard};
pub use strategy::{Always, OnSuccess, OnUnwind, Strategy};
