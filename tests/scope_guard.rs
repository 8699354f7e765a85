use std::cell::{Cell, RefCell};

use scopeguard::{guard, guard_on_success, guard_on_unwind, Always, OnSuccess, OnUnwind, ScopeGuard, Strategy};

#[test]
fn test_defer() {
    let drops = Cell::new(0);
    let _guard = guard((), |()| drops.set(1000));
    assert_eq!(drops.get(), 0);
}

#[test]
fn test_defer_success_1() {
    let drops = Cell::new(0);
    {
        let g = guard_on_success((), |()| drops.set(1));
        assert_eq!(drops.get(), 0);
        ScopeGuard::finalize(g, false);
    }
    assert_eq!(drops.get(), 1);
}

#[test]
fn test_defer_unwind_2() {
    let drops = Cell::new(0);
    {
        let g = guard_on_unwind((), |()| drops.set(1));
        ScopeGuard::finalize(g, false);
    }
    assert_eq!(drops.get(), 0);
}

#[test]
fn test_into_inner() {
    let dropped = Cell::new(false);
    let value = guard(42, |_| dropped.set(true));
    let guard = guard(value, |_| dropped.set(true));
    let inner = ScopeGuard::into_inner(guard);
    assert_eq!(dropped.get(), false);
    assert_eq!(*inner, 42);
}

#[test]
fn on_success_skips_cleanup_when_unwinding() {
    let drops = Cell::new(0);
    {
        let g = guard_on_success((), |()| drops.set(1));
        let ran = ScopeGuard::finalize(g, true);
        assert!(!ran);
    }
    assert_eq!(drops.get(), 0);
}

#[test]
fn on_unwind_runs_cleanup_when_unwinding() {
    let drops = Cell::new(0);
    {
        let g = guard_on_unwind((), |()| drops.set(1));
        assert_eq!(drops.get(), 0);
        let ran = ScopeGuard::finalize(g, true);
        assert!(ran);
    }
    assert_eq!(drops.get(), 1);
}

#[test]
fn always_runs_at_either_exit() {
    let drops = Cell::new(0);
    let g = guard((), |()| drops.set(drops.get() + 1));
    assert!(ScopeGuard::finalize(g, false));
    let h = guard((), |()| drops.set(drops.get() + 1));
    assert!(ScopeGuard::finalize(h, true));
    assert_eq!(drops.get(), 2);
}

#[test]
fn counter_set_after_scope_exit() {
    let counter = Cell::new(0);
    {
        let g = guard(0, |v| counter.set(v + 1));
        assert_eq!(counter.get(), 0);
        assert_eq!(*g, 0);
        assert_eq!(counter.get(), 0);
        ScopeGuard::finalize(g, false);
    }
    assert_eq!(counter.get(), 1);
}

#[test]
fn cleanup_sees_value_at_scope_exit() {
    let seen = Cell::new(0);
    {
        let mut g = guard(0, |v| seen.set(v));
        *g = 41;
        *g += 1;
        assert_eq!(seen.get(), 0);
        ScopeGuard::finalize(g, true);
    }
    assert_eq!(seen.get(), 42);
}

#[test]
fn on_success_failure_leaves_counter_untouched() {
    let counter = Cell::new(0);
    {
        let g = guard_on_success(0, |v| counter.set(v + 1));
        // the scope is left by a failure propagating through it
        let ran = ScopeGuard::finalize(g, true);
        assert!(!ran);
    }
    assert_eq!(counter.get(), 0);
}

#[test]
fn into_inner_returns_value_without_cleanup() {
    let ran = Cell::new(false);
    let g = guard(7, |_| ran.set(true));
    let v = ScopeGuard::into_inner(g);
    assert_eq!(v, 7);
    assert!(!ran.get());
}

#[test]
fn into_inner_returns_last_written_value() {
    let ran = Cell::new(false);
    let mut g = guard_on_success(vec![1, 2], |_| ran.set(true));
    g.push(3);
    g[0] = 10;
    assert_eq!(g.len(), 3);
    let v = ScopeGuard::into_inner(g);
    assert_eq!(v, vec![10, 2, 3]);
    assert!(!ran.get());
}

#[test]
fn nested_guard_finalized_inside_outer_cleanup() {
    let log = RefCell::new(Vec::new());
    let inner = guard(1, |v| log.borrow_mut().push(v));
    let outer = guard(inner, |held| {
        log.borrow_mut().push(10);
        let ran = ScopeGuard::finalize(held, false);
        assert!(ran);
        log.borrow_mut().push(20);
    });
    assert!(log.borrow().is_empty());
    assert!(ScopeGuard::finalize(outer, false));
    assert_eq!(*log.borrow(), vec![10, 1, 20]);
}

#[test]
fn with_strategy_picks_the_policy() {
    let drops = Cell::new(0);
    let g: ScopeGuard<u8, _, OnUnwind> = ScopeGuard::with_strategy(5, |v: u8| drops.set(v));
    assert_eq!(*g, 5);
    assert!(!ScopeGuard::finalize(g, false));
    let h: ScopeGuard<u8, _, OnSuccess> = ScopeGuard::with_strategy(6, |v: u8| drops.set(v));
    assert!(ScopeGuard::finalize(h, false));
    assert_eq!(drops.get(), 6);
}

#[test]
fn strategies_decide_by_unwinding_state() {
    assert!(Always::should_run(false));
    assert!(Always::should_run(true));
    assert!(!OnUnwind::should_run(false));
    assert!(OnUnwind::should_run(true));
    assert!(OnSuccess::should_run(false));
    assert!(!OnSuccess::should_run(true));
}
