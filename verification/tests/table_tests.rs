use lockpool::{lock_result, try_lock_result, KeyState, LockAttempt, LockError, LockTable};
use lockpool::{PoisonError, TryLockError, UnpoisonError};

// A blocking lock as a pool performs it when nobody else holds the key: register, then acquire.
fn lock(t: &mut LockTable<isize>, key: isize) -> LockAttempt {
    assert!(t.has_room(&key));
    t.register(key);
    let attempt = t.try_acquire(key);
    assert!(attempt.holds_lock());
    attempt
}

// Locks `key` and releases it while panicking, which poisons it in a poisoning table.
fn poison(t: &mut LockTable<isize>, key: isize) {
    lock(t, key);
    t.unlock(key, true);
}

fn sync_table() -> LockTable<isize> {
    LockTable::new(true)
}

fn assert_is_lock_poisoned_error<G>(expected_key: isize, error: &PoisonError<isize, G>) {
    assert_eq!(expected_key, error.key);
}

fn assert_is_try_lock_poisoned_error<G>(expected_key: isize, error: &TryLockError<isize, G>) {
    match error {
        TryLockError::Poisoned(PoisonError { key: actual_key, .. }) => {
            assert_eq!(expected_key, *actual_key);
        }
        _ => panic!("Wrong error type"),
    }
}

#[test]
fn test_simple_lock_unlock() {
    let mut pool = sync_table();
    assert_eq!(0, pool.num_locked_or_poisoned());
    assert_eq!(LockAttempt::Acquired, lock(&mut pool, 4));
    assert_eq!(1, pool.num_locked_or_poisoned());
    pool.unlock(4, false);
    assert_eq!(0, pool.num_locked_or_poisoned());
}

#[test]
fn test_simple_try_lock_unlock() {
    let mut pool = sync_table();
    assert_eq!(0, pool.num_locked_or_poisoned());
    assert_eq!(LockAttempt::Acquired, pool.try_lock(4));
    assert_eq!(1, pool.num_locked_or_poisoned());
    pool.unlock(4, false);
    assert_eq!(0, pool.num_locked_or_poisoned());
}

#[test]
fn test_multi_lock_unlock() {
    let mut pool = sync_table();
    assert_eq!(0, pool.num_locked_or_poisoned());
    lock(&mut pool, 1);
    assert_eq!(1, pool.num_locked_or_poisoned());
    lock(&mut pool, 2);
    assert_eq!(2, pool.num_locked_or_poisoned());
    lock(&mut pool, 3);
    assert_eq!(3, pool.num_locked_or_poisoned());

    pool.unlock(2, false);
    assert_eq!(2, pool.num_locked_or_poisoned());
    pool.unlock(1, false);
    assert_eq!(1, pool.num_locked_or_poisoned());
    pool.unlock(3, false);
    assert_eq!(0, pool.num_locked_or_poisoned());
}

#[test]
fn test_multi_try_lock_unlock() {
    let mut pool = sync_table();
    assert_eq!(0, pool.num_locked_or_poisoned());
    assert!(pool.try_lock(1).holds_lock());
    assert_eq!(1, pool.num_locked_or_poisoned());
    assert!(pool.try_lock(2).holds_lock());
    assert_eq!(2, pool.num_locked_or_poisoned());
    assert!(pool.try_lock(3).holds_lock());
    assert_eq!(3, pool.num_locked_or_poisoned());

    pool.unlock(2, false);
    assert_eq!(2, pool.num_locked_or_poisoned());
    pool.unlock(1, false);
    assert_eq!(1, pool.num_locked_or_poisoned());
    pool.unlock(3, false);
    assert_eq!(0, pool.num_locked_or_poisoned());
}

#[test]
fn test_concurrent_lock() {
    let mut pool = sync_table();
    lock(&mut pool, 5);

    // A second user registers and waits: it does not get the lock.
    pool.register(5);
    assert_eq!(LockAttempt::WouldBlock, pool.try_acquire(5));

    // Other keys can still be locked while it waits.
    lock(&mut pool, 4);
    pool.unlock(4, false);

    // Once the first holder releases, the waiter gets the lock.
    pool.unlock(5, false);
    assert_eq!(LockAttempt::Acquired, pool.try_acquire(5));
    pool.unlock(5, false);

    assert_eq!(0, pool.num_locked_or_poisoned());
}

#[test]
fn test_concurrent_try_lock() {
    let mut pool = sync_table();
    lock(&mut pool, 5);

    let error = try_lock_result::<isize, ()>(pool.try_lock(5), 5, None).unwrap_err();
    assert!(matches!(error, TryLockError::WouldBlock));

    // Other keys can still be locked.
    assert_eq!(LockAttempt::Acquired, pool.try_lock(4));
    pool.unlock(4, false);

    // Free the lock, then it can be taken again.
    pool.unlock(5, false);
    assert_eq!(LockAttempt::Acquired, pool.try_lock(5));
    pool.unlock(5, false);

    assert_eq!(0, pool.num_locked_or_poisoned());
}

#[test]
fn test_multi_concurrent_lock() {
    let mut pool = sync_table();
    lock(&mut pool, 5);

    // Two waiters.
    pool.register(5);
    pool.register(5);
    assert_eq!(LockAttempt::WouldBlock, pool.try_acquire(5));
    assert_eq!(LockAttempt::WouldBlock, pool.try_acquire(5));
    assert_eq!(Some(KeyState { holders: 3, locked: true, poisoned: false }), pool.state(&5));

    lock(&mut pool, 4);
    pool.unlock(4, false);

    // Free the lock: exactly one waiter gets it.
    pool.unlock(5, false);
    assert_eq!(LockAttempt::Acquired, pool.try_acquire(5));
    assert_eq!(LockAttempt::WouldBlock, pool.try_acquire(5));

    // It frees the lock: the other waiter gets it.
    pool.unlock(5, false);
    assert_eq!(LockAttempt::Acquired, pool.try_acquire(5));
    pool.unlock(5, false);

    assert_eq!(0, pool.num_locked_or_poisoned());
}

fn assert_all_attempts_poisoned(pool: &mut LockTable<isize>, key: isize) {
    for _ in 0..2 {
        {
            let attempt = lock(pool, key);
            let err = lock_result(attempt, key, ()).unwrap_err();
            assert_is_lock_poisoned_error(key, &err);
            pool.unlock(key, false);
        }
        {
            let attempt = pool.try_lock(key);
            let err = try_lock_result(attempt, key, Some(())).unwrap_err();
            assert_is_try_lock_poisoned_error(key, &err);
            pool.unlock(key, false);
        }
    }
}

#[test]
fn test_pool_mutex_poisoned_by_lock() {
    let mut pool = sync_table();
    poison(&mut pool, 3);
    assert_all_attempts_poisoned(&mut pool, 3);
}

#[test]
fn test_pool_mutex_poisoned_by_try_lock() {
    let mut pool = sync_table();
    assert_eq!(LockAttempt::Acquired, pool.try_lock(3));
    pool.unlock(3, true);
    assert_all_attempts_poisoned(&mut pool, 3);
}

#[test]
fn test_poison_error_holds_lock() {
    let mut pool = sync_table();
    poison(&mut pool, 5);
    let attempt = lock(&mut pool, 5);
    let error = lock_result(attempt, 5, ()).unwrap_err();
    assert_is_lock_poisoned_error(5, &error);

    // A second user waits and does not get the lock.
    pool.register(5);
    assert_eq!(LockAttempt::WouldBlock, pool.try_acquire(5));

    // Dropping the error frees the lock, and the waiter gets it, still poisoned.
    pool.unlock(5, false);
    assert_eq!(LockAttempt::Poisoned, pool.try_acquire(5));
    // The waiter panics on the poisoned lock.
    pool.unlock(5, true);

    // The poisoned lock is still there.
    assert_eq!(1, pool.num_locked_or_poisoned());
}

#[test]
fn test_poison_error_holds_try_lock() {
    let mut pool = sync_table();
    poison(&mut pool, 5);
    let attempt = lock(&mut pool, 5);
    let error = lock_result(attempt, 5, ()).unwrap_err();
    assert_is_lock_poisoned_error(5, &error);

    let err = try_lock_result::<isize, ()>(pool.try_lock(5), 5, None).unwrap_err();
    assert!(matches!(err, TryLockError::WouldBlock));

    // Free the lock.
    pool.unlock(5, false);

    // It is still poisoned.
    let err = try_lock_result(pool.try_lock(5), 5, Some(())).unwrap_err();
    assert_is_try_lock_poisoned_error(5, &err);
    pool.unlock(5, false);

    // The poisoned lock is still there.
    assert_eq!(1, pool.num_locked_or_poisoned());
}

#[test]
fn test_unpoison() {
    let mut pool = sync_table();
    poison(&mut pool, 3);

    // It is actually poisoned.
    {
        let attempt = lock(&mut pool, 3);
        let err = lock_result(attempt, 3, ()).unwrap_err();
        assert_is_lock_poisoned_error(3, &err);
        pool.unlock(3, false);
    }

    pool.unpoison(&3).unwrap();

    // It got unpoisoned.
    assert_eq!(LockAttempt::Acquired, lock(&mut pool, 3));
    pool.unlock(3, false);
    assert_eq!(LockAttempt::Acquired, pool.try_lock(3));
    pool.unlock(3, false);
    assert_eq!(0, pool.num_locked_or_poisoned());
}

#[test]
fn pool_sync_test_unpoison_not_poisoned() {
    let mut pool = sync_table();
    let err = pool.unpoison(&3).unwrap_err();
    assert_eq!(UnpoisonError::NotPoisoned, err);
}

#[test]
fn test_unpoison_while_other_thread_waiting() {
    let mut pool = sync_table();
    poison(&mut pool, 3);

    // The poisoned error guard keeps it locked.
    let attempt = lock(&mut pool, 3);
    assert_eq!(LockAttempt::Poisoned, attempt);

    let err = pool.unpoison(&3).unwrap_err();
    assert!(matches!(err, UnpoisonError::OtherThreadsBlockedOnMutex));
}

#[test]
fn unpoison_refused_while_a_waiter_is_registered() {
    let mut pool = sync_table();
    poison(&mut pool, 3);
    pool.register(3);
    assert_eq!(Err(UnpoisonError::OtherThreadsBlockedOnMutex), pool.unpoison(&3));
    pool.cancel(3);
    assert_eq!(Ok(()), pool.unpoison(&3));
    assert_eq!(None, pool.state(&3));
}

#[test]
fn non_poisoning_table_ignores_panics() {
    let mut pool: LockTable<isize> = LockTable::new(false);
    assert!(!pool.supports_poisoning());
    lock(&mut pool, 3);
    pool.unlock(3, true);
    assert_eq!(0, pool.num_locked_or_poisoned());
    assert_eq!(LockAttempt::Acquired, pool.try_lock(3));
}

#[test]
fn panic_poisons_in_poisoning_table() {
    let mut pool = sync_table();
    assert!(pool.supports_poisoning());
    lock(&mut pool, 7);
    pool.unlock(7, true);
    assert_eq!(Some(KeyState { holders: 0, locked: false, poisoned: true }), pool.state(&7));
}

#[test]
fn lock_then_unlock_restores_the_table() {
    let mut pool = sync_table();
    // Another key's lock is held, and key 2 is poisoned and waited for.
    lock(&mut pool, 1);
    poison(&mut pool, 2);
    pool.register(2);
    let before: Vec<Option<KeyState>> = (0..4).map(|k| pool.state(&k)).collect();

    // Key 2 is free (poisoned) and key 3 is absent: locking and unlocking either restores everything.
    pool.register(2);
    assert_eq!(LockAttempt::Poisoned, pool.try_acquire(2));
    pool.unlock(2, false);
    assert_eq!(LockAttempt::Acquired, pool.try_lock(3));
    pool.unlock(3, false);

    let after: Vec<Option<KeyState>> = (0..4).map(|k| pool.state(&k)).collect();
    assert_eq!(before, after);
    assert_eq!(2, pool.num_locked_or_poisoned());
}

#[test]
fn held_lock_excludes_every_attempt() {
    let mut pool = sync_table();
    lock(&mut pool, 9);
    let before = pool.state(&9);
    assert_eq!(LockAttempt::WouldBlock, pool.try_lock(9));
    pool.register(9);
    assert_eq!(LockAttempt::WouldBlock, pool.try_acquire(9));
    pool.cancel(9);
    assert_eq!(before, pool.state(&9));
}

#[test]
fn operations_leave_other_keys_alone() {
    let mut pool = sync_table();
    lock(&mut pool, 1);
    let before = pool.state(&1);
    lock(&mut pool, 2);
    pool.try_lock(3);
    pool.unlock(2, true);
    pool.unlock(3, false);
    pool.register(4);
    pool.cancel(4);
    assert_eq!(Ok(()), pool.unpoison(&2));
    assert_eq!(before, pool.state(&1));
}

#[test]
fn cancelled_waiter_is_forgotten() {
    let mut pool = sync_table();
    pool.register(6);
    assert_eq!(Some(KeyState { holders: 1, locked: false, poisoned: false }), pool.state(&6));
    pool.cancel(6);
    assert_eq!(None, pool.state(&6));
    assert_eq!(0, pool.num_locked_or_poisoned());
}

#[test]
fn has_room_for_new_and_known_keys() {
    let mut pool = sync_table();
    assert!(pool.has_room(&1));
    lock(&mut pool, 1);
    assert!(pool.has_room(&1));
}

#[test]
fn lock_result_builds_guard_or_error() {
    assert_eq!(Some(10), lock_result(LockAttempt::Acquired, 3, 10).ok());
    let err = lock_result(LockAttempt::Poisoned, 3, 10).unwrap_err();
    assert_eq!(3, err.key);
    assert_eq!(10, err.guard);
    assert_eq!(10, LockError::into_inner(err));
}

#[test]
fn try_lock_result_builds_guard_or_error() {
    assert_eq!(Some(10), try_lock_result(LockAttempt::Acquired, 3, Some(10)).ok());
    match try_lock_result(LockAttempt::Poisoned, 3, Some(10)) {
        Err(TryLockError::Poisoned(PoisonError { key, guard })) => {
            assert_eq!(3, key);
            assert_eq!(10, guard);
        }
        _ => panic!("Wrong error type"),
    }
    assert!(matches!(
        try_lock_result::<isize, i32>(LockAttempt::WouldBlock, 3, None),
        Err(TryLockError::WouldBlock)
    ));
}

#[test]
fn attempts_tell_whether_they_hold_the_lock() {
    assert!(LockAttempt::Acquired.holds_lock());
    assert!(LockAttempt::Poisoned.holds_lock());
    assert!(!LockAttempt::WouldBlock.holds_lock());
}

#[test]
fn unpoison_of_a_clean_held_lock_is_not_poisoned() {
    let mut pool = sync_table();
    assert_eq!(LockAttempt::Acquired, lock(&mut pool, 4));
    assert_eq!(Err(UnpoisonError::NotPoisoned), pool.unpoison(&4));
    // The lock is still held.
    assert_eq!(Some(KeyState { holders: 1, locked: true, poisoned: false }), pool.state(&4));
    assert_eq!(1, pool.num_locked_or_poisoned());
}

#[test]
fn register_on_a_known_key_adds_a_user_not_an_entry() {
    let mut pool = sync_table();
    lock(&mut pool, 4);
    pool.register(4);
    assert_eq!(Some(KeyState { holders: 2, locked: true, poisoned: false }), pool.state(&4));
    assert_eq!(1, pool.num_locked_or_poisoned());
}
