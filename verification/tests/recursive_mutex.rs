use unsend::recursive_mutex::LockState;

#[test]
fn lock_context() {
    let mut context = LockState::new();

    assert!(context.try_lock(1));
    assert!(context.try_lock(1));
    assert!(!context.unlock(1));
    assert!(context.unlock(1));
}

#[test]
fn held_lock_makes_other_threads_wait() {
    let mut context = LockState::new();
    assert!(context.try_lock(1));
    assert!(!context.try_lock(2));
    assert!(context.unlock(1));
    assert!(context.try_lock(2));
}
