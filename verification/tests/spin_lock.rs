use dpc_driver::irql::{ExecutionContext, APC_LEVEL, DISPATCH_LEVEL, PASSIVE_LEVEL};
use dpc_driver::spin_lock::{SpinLock, SpinLockLevel};

#[test]
fn levels_are_ordered() {
    assert_eq!(PASSIVE_LEVEL, 0);
    assert_eq!(APC_LEVEL, 1);
    assert_eq!(DISPATCH_LEVEL, 2);
}

#[test]
fn a_context_reports_its_level() {
    assert_eq!(ExecutionContext::new(PASSIVE_LEVEL).irql(), PASSIVE_LEVEL);
    assert_eq!(ExecutionContext::new(DISPATCH_LEVEL).irql(), DISPATCH_LEVEL);
}

#[test]
fn a_new_lock_is_neither_free_nor_held_until_initialized() {
    let mut lock = SpinLock::new();
    assert!(!lock.is_free());
    assert!(!lock.is_locked());
    lock.init();
    assert!(lock.is_free());
    assert!(!lock.is_locked());
}

#[test]
fn lock_from_passive_raises_and_release_restores() {
    let mut lock = SpinLock::new();
    lock.init();
    let mut cx = ExecutionContext::new(PASSIVE_LEVEL);
    let guard = lock.lock(&mut cx);
    assert!(lock.is_locked());
    assert!(!lock.is_free());
    assert_eq!(cx.irql(), DISPATCH_LEVEL);
    assert_eq!(guard.level(), SpinLockLevel::Dispatch);
    assert_eq!(guard.old_irql(), PASSIVE_LEVEL);
    guard.release(&mut lock, &mut cx);
    assert!(lock.is_free());
    assert_eq!(cx.irql(), PASSIVE_LEVEL);
}

#[test]
fn lock_from_apc_level_restores_apc_level() {
    let mut lock = SpinLock::new();
    lock.init();
    let mut cx = ExecutionContext::new(APC_LEVEL);
    let guard = lock.lock(&mut cx);
    assert_eq!(cx.irql(), DISPATCH_LEVEL);
    assert_eq!(guard.old_irql(), APC_LEVEL);
    guard.release(&mut lock, &mut cx);
    assert_eq!(cx.irql(), APC_LEVEL);
    assert!(lock.is_free());
}

#[test]
fn lock_at_dpc_leaves_the_level_alone() {
    let mut lock = SpinLock::new();
    lock.init();
    let mut cx = ExecutionContext::new(DISPATCH_LEVEL);
    let guard = lock.lock_at_dpc(&cx);
    assert!(lock.is_locked());
    assert_eq!(cx.irql(), DISPATCH_LEVEL);
    assert_eq!(guard.level(), SpinLockLevel::Dpc);
    assert_eq!(guard.old_irql(), 0);
    guard.release(&mut lock, &mut cx);
    assert!(lock.is_free());
    assert_eq!(cx.irql(), DISPATCH_LEVEL);
}

#[test]
fn a_lock_can_be_taken_again_after_release() {
    let mut lock = SpinLock::new();
    lock.init();
    let mut normal = ExecutionContext::new(PASSIVE_LEVEL);
    let mut elevated = ExecutionContext::new(DISPATCH_LEVEL);
    for _ in 0..3 {
        let guard = lock.lock(&mut normal);
        guard.release(&mut lock, &mut normal);
        let guard = lock.lock_at_dpc(&elevated);
        guard.release(&mut lock, &mut elevated);
    }
    assert!(lock.is_free());
    assert_eq!(normal.irql(), PASSIVE_LEVEL);
    assert_eq!(elevated.irql(), DISPATCH_LEVEL);
}

#[test]
fn initializing_a_free_lock_keeps_it_free() {
    let mut lock = SpinLock::new();
    lock.init();
    lock.init();
    assert!(lock.is_free());
}
