use oyster_market::lock::{create_lock_util, unlock_util, ErrorCode, Lock, Timelock};

const RATE_LOCK: u64 = 1;

#[test]
fn create_then_unlock_after_maturity() {
    let mut locks = Timelock::new();
    locks.update_lock_wait_time(RATE_LOCK, 10);
    let unlock_time = locks.create_lock(RATE_LOCK, 3, 77, 5).unwrap();
    assert_eq!(unlock_time, 15);
    assert_eq!(locks.unlock(RATE_LOCK, 3, 14), Err(ErrorCode::LockNotYetUnlocked));
    assert_eq!(locks.unlock(RATE_LOCK, 3, 15), Ok(77));
}

#[test]
fn unlock_is_single_use() {
    let mut locks = Timelock::new();
    locks.update_lock_wait_time(RATE_LOCK, 0);
    locks.create_lock(RATE_LOCK, 3, 77, 5).unwrap();
    assert_eq!(locks.unlock(RATE_LOCK, 3, 5), Ok(77));
    assert_eq!(locks.unlock(RATE_LOCK, 3, 5), Err(ErrorCode::LockNotFound));
}

#[test]
fn unlock_never_created_fails() {
    let mut locks = Timelock::new();
    assert_eq!(locks.unlock(RATE_LOCK, 3, 100), Err(ErrorCode::LockNotFound));
}

#[test]
fn create_duplicate_pending_fails() {
    let mut locks = Timelock::new();
    locks.update_lock_wait_time(RATE_LOCK, 10);
    locks.create_lock(RATE_LOCK, 3, 77, 5).unwrap();
    assert_eq!(locks.create_lock(RATE_LOCK, 3, 88, 6), Err(ErrorCode::LockAlreadyExists));
    // A different key under the same selector is unaffected.
    assert_eq!(locks.create_lock(RATE_LOCK, 4, 88, 6), Ok(16));
}

#[test]
fn cancel_then_recreate_succeeds() {
    let mut locks = Timelock::new();
    locks.update_lock_wait_time(RATE_LOCK, 10);
    locks.create_lock(RATE_LOCK, 3, 77, 5).unwrap();
    assert_eq!(locks.revert_lock(RATE_LOCK, 3), Ok(77));
    assert_eq!(locks.create_lock(RATE_LOCK, 3, 88, 6), Ok(16));
}

#[test]
fn cancel_never_created_fails() {
    let mut locks = Timelock::new();
    assert_eq!(locks.revert_lock(RATE_LOCK, 3), Err(ErrorCode::LockNotFound));
}

#[test]
fn cancel_ignores_maturity() {
    let mut locks = Timelock::new();
    locks.update_lock_wait_time(RATE_LOCK, 1000);
    locks.create_lock(RATE_LOCK, 3, 77, 5).unwrap();
    // Still far from mature, yet cancellation succeeds.
    assert_eq!(locks.revert_lock(RATE_LOCK, 3), Ok(77));
}

#[test]
fn clone_copies_remaining_wait() {
    let mut locks = Timelock::new();
    locks.update_lock_wait_time(RATE_LOCK, 10);
    locks.create_lock(RATE_LOCK, 3, 77, 5).unwrap();
    // Raising the wait time later must not reset the clone's timer.
    locks.update_lock_wait_time(RATE_LOCK, 1000);
    locks.clone_lock(RATE_LOCK, 3, 4).unwrap();
    assert_eq!(locks.unlock(RATE_LOCK, 4, 15), Ok(77));
}

#[test]
fn clone_to_pending_key_fails() {
    let mut locks = Timelock::new();
    locks.update_lock_wait_time(RATE_LOCK, 10);
    locks.create_lock(RATE_LOCK, 3, 77, 5).unwrap();
    locks.create_lock(RATE_LOCK, 4, 88, 5).unwrap();
    assert_eq!(locks.clone_lock(RATE_LOCK, 3, 4), Err(ErrorCode::LockAlreadyExists));
}

#[test]
fn clone_from_missing_key_fails() {
    let mut locks = Timelock::new();
    assert_eq!(locks.clone_lock(RATE_LOCK, 3, 4), Err(ErrorCode::LockNotFound));
}

#[test]
fn wait_time_update_applies_to_future_locks_only() {
    let mut locks = Timelock::new();
    locks.update_lock_wait_time(RATE_LOCK, 10);
    locks.create_lock(RATE_LOCK, 1, 11, 0).unwrap();
    locks.update_lock_wait_time(RATE_LOCK, 100);
    locks.create_lock(RATE_LOCK, 2, 22, 0).unwrap();
    // The first lock keeps the maturity it was created with; the second got
    // the new delay.
    assert_eq!(locks.unlock(RATE_LOCK, 1, 10), Ok(11));
    assert_eq!(locks.unlock(RATE_LOCK, 2, 10), Err(ErrorCode::LockNotYetUnlocked));
    assert_eq!(locks.unlock(RATE_LOCK, 2, 100), Ok(22));
}

#[test]
fn create_lock_util_rejects_armed_record() {
    let mut lock = Lock { unlock_time: 0, i_value: 0 };
    assert_eq!(create_lock_util(&mut lock, 10, 77, 5), Ok(()));
    assert_eq!(lock, Lock { unlock_time: 15, i_value: 77 });
    assert_eq!(create_lock_util(&mut lock, 10, 88, 6), Err(ErrorCode::LockAlreadyExists));
    assert_eq!(lock, Lock { unlock_time: 15, i_value: 77 });
}

#[test]
fn unlock_util_checks_maturity() {
    let lock = Lock { unlock_time: 15, i_value: 77 };
    assert_eq!(unlock_util(&lock, 14), Err(ErrorCode::LockNotYetUnlocked));
    assert_eq!(unlock_util(&lock, 15), Ok(77));
}
