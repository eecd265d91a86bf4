use vstd::prelude::*;

use crate::error::UnpoisonError;
use crate::table::{
    after_acquire, after_cancel, after_register, after_try_lock, after_unlock, after_unpoison,
    attempt_of, has_room, table_ok, try_lock_attempt, unpoison_result, KeyState, LockAttempt,
};

verus! {

/// Taking the free lock of `k` and releasing it again, without a panic, leaves the table
/// as it was, both through a blocking lock (register, then acquire) and through a
/// non-blocking one.
pub proof fn lemma_lock_then_unlock_restores<K>(m: Map<K, KeyState>, k: K, poisoning: bool)
    requires
        table_ok(m, poisoning),
        has_room(m, k),
        !(m.contains_key(k) && m[k].locked),
    ensures
        after_unlock(after_acquire(after_register(m, k), k), k, false, poisoning) == m,
        after_unlock(after_try_lock(m, k), k, false, poisoning) == m,
{
    let r = after_unlock(after_acquire(after_register(m, k), k), k, false, poisoning);
    let t = after_unlock(after_try_lock(m, k), k, false, poisoning);
    assert(r =~= m);
    assert(t =~= m);
}

/// While the lock of `k` is held, no attempt to take it succeeds, and such an attempt
/// changes nothing.
pub proof fn lemma_held_lock_excludes_others<K>(m: Map<K, KeyState>, k: K)
    requires
        m.contains_key(k),
        m[k].locked,
    ensures
        attempt_of(m[k]) == LockAttempt::WouldBlock,
        after_acquire(m, k) == m,
        try_lock_attempt(m, k) == LockAttempt::WouldBlock,
        after_try_lock(m, k) == m,
{
}

/// An attempt that does not answer `WouldBlock` leaves the lock of `k` held, so that
/// every later attempt answers `WouldBlock` until the holder releases it.
pub proof fn lemma_successful_attempt_holds_lock<K>(m: Map<K, KeyState>, k: K)
    requires
        m.contains_key(k),
    ensures
        attempt_of(m[k]) != LockAttempt::WouldBlock ==> after_acquire(m, k).contains_key(k)
            && after_acquire(m, k)[k].locked,
        try_lock_attempt(m, k) != LockAttempt::WouldBlock ==> after_try_lock(m, k).contains_key(
            k,
        ) && after_try_lock(m, k)[k].locked,
{
}

/// A fresh key can always be locked without waiting, and its lock is not poisoned.
pub proof fn lemma_free_key_locks_at_once<K>(m: Map<K, KeyState>, k: K)
    requires
        !m.contains_key(k),
    ensures
        try_lock_attempt(m, k) == LockAttempt::Acquired,
        attempt_of(after_register(m, k)[k]) == LockAttempt::Acquired,
{
}

/// Every operation on the lock of `k` leaves the locks of all other keys as they were.
pub proof fn lemma_other_keys_unaffected<K>(
    m: Map<K, KeyState>,
    k: K,
    j: K,
    panicking: bool,
    poisoning: bool,
)
    requires
        j != k,
    ensures
        after_register(m, k).contains_key(j) == m.contains_key(j),
        after_acquire(m, k).contains_key(j) == m.contains_key(j),
        after_try_lock(m, k).contains_key(j) == m.contains_key(j),
        after_unlock(m, k, panicking, poisoning).contains_key(j) == m.contains_key(j),
        after_cancel(m, k).contains_key(j) == m.contains_key(j),
        after_unpoison(m, k).contains_key(j) == m.contains_key(j),
        m.contains_key(j) ==> {
            &&& after_register(m, k)[j] == m[j]
            &&& after_acquire(m, k)[j] == m[j]
            &&& after_try_lock(m, k)[j] == m[j]
            &&& after_unlock(m, k, panicking, poisoning)[j] == m[j]
            &&& after_cancel(m, k)[j] == m[j]
            &&& after_unpoison(m, k)[j] == m[j]
        },
{
}

/// A holder that panics poisons the lock of a table that supports poisoning, and the
/// poisoned lock stays in the table; in a table that does not, a panic changes nothing.
pub proof fn lemma_panic_poisons<K>(m: Map<K, KeyState>, k: K, poisoning: bool)
    requires
        m.contains_key(k),
        m[k].locked,
    ensures
        poisoning ==> after_unlock(m, k, true, poisoning).contains_key(k) && after_unlock(
            m,
            k,
            true,
            poisoning,
        )[k].poisoned,
        !poisoning ==> after_unlock(m, k, true, poisoning) == after_unlock(m, k, false, poisoning),
{
}

/// In a table that does not support poisoning, no lock is poisoned, so no attempt to take
/// a lock ever answers `Poisoned`.
pub proof fn lemma_no_poison_without_support<K>(m: Map<K, KeyState>, k: K)
    requires
        table_ok(m, false),
    ensures
        m.contains_key(k) ==> !m[k].poisoned && attempt_of(m[k]) != LockAttempt::Poisoned,
        try_lock_attempt(m, k) != LockAttempt::Poisoned,
{
}

/// A poisoned lock stays poisoned, and stays in the table, through every operation but
/// a successful unpoison of its own key; and while it is free, taking it answers `Poisoned`.
pub proof fn lemma_poison_is_sticky<K>(
    m: Map<K, KeyState>,
    k: K,
    j: K,
    panicking: bool,
    poisoning: bool,
)
    requires
        m.contains_key(j),
        m[j].poisoned,
    ensures
        !m[j].locked ==> attempt_of(m[j]) == LockAttempt::Poisoned,
        !m[j].locked ==> try_lock_attempt(m, j) == LockAttempt::Poisoned,
        after_register(m, k).contains_key(j) && after_register(m, k)[j].poisoned,
        m.contains_key(k) ==> after_acquire(m, k).contains_key(j) && after_acquire(m, k)[j].poisoned,
        after_try_lock(m, k).contains_key(j) && after_try_lock(m, k)[j].poisoned,
        m.contains_key(k) ==> after_unlock(m, k, panicking, poisoning).contains_key(j)
            && after_unlock(m, k, panicking, poisoning)[j].poisoned,
        m.contains_key(k) ==> after_cancel(m, k).contains_key(j) && after_cancel(m, k)[j].poisoned,
        !(k == j && unpoison_result(m, k) is Ok) ==> after_unpoison(m, k).contains_key(j)
            && after_unpoison(m, k)[j].poisoned,
{
}

/// Unpoisoning succeeds exactly for a key whose lock is poisoned and that nobody holds
/// or waits for; it answers `NotPoisoned` for a key whose lock is not poisoned (or that is
/// not in the table), whether or not it is held, and `OtherThreadsBlockedOnMutex` for a
/// poisoned lock while someone holds or waits for it. After it
/// succeeded, the key is gone and its lock is taken at once and clean.
pub proof fn lemma_unpoison<K>(m: Map<K, KeyState>, k: K)
    requires
        table_ok(m, true),
    ensures
        (unpoison_result(m, k) is Ok) <==> (m.contains_key(k) && m[k].holders == 0),
        !m.contains_key(k) ==> unpoison_result(m, k) == Err::<(), UnpoisonError>(
            UnpoisonError::NotPoisoned,
        ),
        m.contains_key(k) && !m[k].poisoned ==> unpoison_result(m, k) == Err::<(), UnpoisonError>(
            UnpoisonError::NotPoisoned,
        ),
        m.contains_key(k) && m[k].poisoned && m[k].holders > 0 ==> unpoison_result(m, k) == Err::<
            (),
            UnpoisonError,
        >(UnpoisonError::OtherThreadsBlockedOnMutex),
        unpoison_result(m, k) is Ok ==> !after_unpoison(m, k).contains_key(k) && try_lock_attempt(
            after_unpoison(m, k),
            k,
        ) == LockAttempt::Acquired,
        !(unpoison_result(m, k) is Ok) ==> after_unpoison(m, k) == m,
{
}

/// Registering for a key that already has an entry counts one more user of the same
/// entry and adds no entry; the lock's held and poisoned state stay as they were.
pub proof fn lemma_register_existing<K>(m: Map<K, KeyState>, k: K)
    requires
        m.contains_key(k),
        has_room(m, k),
    ensures
        after_register(m, k).dom() == m.dom(),
        after_register(m, k)[k].holders == m[k].holders + 1,
        after_register(m, k)[k].locked == m[k].locked,
        after_register(m, k)[k].poisoned == m[k].poisoned,
{
    assert(after_register(m, k).dom() =~= m.dom());
}

/// The number of entries grows by one when a fresh key is locked or waited for, and
/// stays the same when the key already had an entry.
pub proof fn lemma_count_on_lock<K>(m: Map<K, KeyState>, k: K)
    requires
        m.dom().finite(),
    ensures
        after_register(m, k).len() == m.len() + (if m.contains_key(k) { 0int } else { 1int }),
        after_try_lock(m, k).len() == m.len() + (if m.contains_key(k) { 0int } else { 1int }),
{
}

/// Releasing a lock drops the key's entry, so that the count shrinks by one, exactly when
/// nobody else holds or waits for it and it is not poisoned (by its former state or by this
/// release); otherwise the count stays. A successful unpoison shrinks the count by one,
/// and a refused one keeps it.
pub proof fn lemma_count_on_release<K>(m: Map<K, KeyState>, k: K, panicking: bool, poisoning: bool)
    requires
        m.dom().finite(),
        m.contains_key(k),
        m[k].holders > 0,
    ensures
        after_unlock(m, k, panicking, poisoning).len() == m.len() - (if m[k].holders == 1
            && !m[k].poisoned && !(panicking && poisoning) { 1int } else { 0int }),
        after_cancel(m, k).len() == m.len() - (if m[k].holders == 1 && !m[k].poisoned {
            1int
        } else {
            0int
        }),
        after_unpoison(m, k).len() == m.len() - (if unpoison_result(m, k) is Ok {
            1int
        } else {
            0int
        }),
{
}

/// Registering counts exactly one more user of `k`: a known key keeps its entry with one
/// more user and the same held and poisoned state, and a new key gets an entry with one
/// user, free and clean. No other entry changes.
pub proof fn lemma_register_adds_one_user<K>(m: Map<K, KeyState>, k: K)
    requires
        has_room(m, k),
    ensures
        after_register(m, k).dom() == m.dom().insert(k),
        m.contains_key(k) ==> after_register(m, k)[k] == (KeyState {
            holders: (m[k].holders + 1) as usize,
            locked: m[k].locked,
            poisoned: m[k].poisoned,
        }),
        !m.contains_key(k) ==> after_register(m, k)[k] == (KeyState {
            holders: 1,
            locked: false,
            poisoned: false,
        }),
{
    assert(after_register(m, k).dom() =~= m.dom().insert(k));
}

/// A registered user's attempt on a free lock always takes it, whatever the number of
/// users: it answers `Poisoned` if the lock is poisoned and `Acquired` otherwise, and the
/// entry becomes held with the same users and poison. On a held lock it answers
/// `WouldBlock` and changes nothing.
pub proof fn lemma_acquire_takes_free_lock<K>(m: Map<K, KeyState>, k: K)
    requires
        m.contains_key(k),
    ensures
        !m[k].locked && !m[k].poisoned ==> attempt_of(m[k]) == LockAttempt::Acquired,
        !m[k].locked && m[k].poisoned ==> attempt_of(m[k]) == LockAttempt::Poisoned,
        !m[k].locked ==> after_acquire(m, k) == m.insert(
            k,
            (KeyState { holders: m[k].holders, locked: true, poisoned: m[k].poisoned }),
        ),
        m[k].locked ==> attempt_of(m[k]) == LockAttempt::WouldBlock && after_acquire(m, k) == m,
{
}

/// A non-blocking attempt answers `WouldBlock` exactly when the lock of `k` is held, and
/// then changes nothing. Otherwise it takes the lock, counting one more user: it answers
/// `Poisoned` for a poisoned lock and `Acquired` for a clean or absent one.
pub proof fn lemma_try_lock_answers<K>(m: Map<K, KeyState>, k: K)
    ensures
        (try_lock_attempt(m, k) == LockAttempt::WouldBlock) <==> (m.contains_key(k) && m[k].locked),
        try_lock_attempt(m, k) == LockAttempt::WouldBlock ==> after_try_lock(m, k) == m,
        !m.contains_key(k) ==> try_lock_attempt(m, k) == LockAttempt::Acquired && after_try_lock(
            m,
            k,
        ) == m.insert(k, (KeyState { holders: 1, locked: true, poisoned: false })),
        m.contains_key(k) && !m[k].locked && !m[k].poisoned ==> try_lock_attempt(m, k)
            == LockAttempt::Acquired,
        m.contains_key(k) && !m[k].locked && m[k].poisoned ==> try_lock_attempt(m, k)
            == LockAttempt::Poisoned,
        m.contains_key(k) && !m[k].locked ==> after_try_lock(m, k) == m.insert(
            k,
            (KeyState { holders: (m[k].holders + 1) as usize, locked: true, poisoned: m[k].poisoned }),
        ),
{
}

/// Releasing a held lock lowers the key's user count by exactly one, whether or not the
/// holder panics, and frees the lock; the poison becomes the old poison, or set by a
/// panicking holder where the table supports poisoning. The entry is dropped exactly when
/// the releaser was the only user and the lock ends up clean. A panicking release differs
/// from a clean one only in the poison.
pub proof fn lemma_unlock_releases_one_user<K>(m: Map<K, KeyState>, k: K, panicking: bool, poisoning: bool)
    requires
        m.contains_key(k),
        m[k].locked,
        m[k].holders > 0,
    ensures
        after_unlock(m, k, panicking, poisoning).contains_key(k) <==> (m[k].holders > 1
            || m[k].poisoned || (panicking && poisoning)),
        after_unlock(m, k, panicking, poisoning).contains_key(k) ==> after_unlock(
            m,
            k,
            panicking,
            poisoning,
        )[k] == (KeyState {
            holders: (m[k].holders - 1) as usize,
            locked: false,
            poisoned: m[k].poisoned || (panicking && poisoning),
        }),
        after_unlock(m, k, panicking, poisoning).dom().remove(k) == m.dom().remove(k),
        after_unlock(m, k, true, poisoning).contains_key(k) && after_unlock(m, k, false, poisoning).contains_key(k)
            ==> after_unlock(m, k, true, poisoning)[k].holders == after_unlock(m, k, false, poisoning)[k].holders
            && after_unlock(m, k, true, poisoning)[k].locked == after_unlock(m, k, false, poisoning)[k].locked,
{
    assert(after_unlock(m, k, panicking, poisoning).dom().remove(k) =~= m.dom().remove(k));
}

/// Giving up a wait lowers the key's user count by exactly one and changes nothing else:
/// the entry is dropped exactly when the canceller was its only user and the lock is not
/// poisoned, and otherwise keeps the same held and poisoned state.
pub proof fn lemma_cancel_drops_one_user<K>(m: Map<K, KeyState>, k: K)
    requires
        m.contains_key(k),
        m[k].holders > 0,
    ensures
        after_cancel(m, k).contains_key(k) <==> (m[k].holders > 1 || m[k].poisoned),
        after_cancel(m, k).contains_key(k) ==> after_cancel(m, k)[k] == (KeyState {
            holders: (m[k].holders - 1) as usize,
            locked: m[k].locked,
            poisoned: m[k].poisoned,
        }),
        after_cancel(m, k).dom().remove(k) == m.dom().remove(k),
{
    assert(after_cancel(m, k).dom().remove(k) =~= m.dom().remove(k));
}

/// There is room for one more user of `k` exactly when `k` has no entry or its user count
/// is below the counter's maximum.
pub proof fn lemma_room_below_max<K>(m: Map<K, KeyState>, k: K)
    ensures
        !m.contains_key(k) ==> has_room(m, k),
        m.contains_key(k) && m[k].holders < usize::MAX ==> has_room(m, k),
        m.contains_key(k) && m[k].holders == usize::MAX ==> !has_room(m, k),
{
}

/// Every operation keeps the table's invariant: an entry exists only while its lock is
/// held, waited for or poisoned.
pub proof fn lemma_operations_keep_invariant<K>(
    m: Map<K, KeyState>,
    k: K,
    panicking: bool,
    poisoning: bool,
)
    requires
        table_ok(m, poisoning),
    ensures
        has_room(m, k) ==> table_ok(after_register(m, k), poisoning),
        has_room(m, k) ==> table_ok(after_try_lock(m, k), poisoning),
        m.contains_key(k) && m[k].holders > 0 ==> table_ok(after_acquire(m, k), poisoning),
        m.contains_key(k) && m[k].locked ==> table_ok(after_unlock(m, k, panicking, poisoning), poisoning),
        m.contains_key(k) && m[k].holders > (if m[k].locked { 1usize } else { 0usize }) ==> table_ok(
            after_cancel(m, k),
            poisoning,
        ),
        table_ok(after_unpoison(m, k), poisoning),
{
}

} // verus!
