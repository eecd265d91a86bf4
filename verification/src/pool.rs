use vstd::prelude::*;

use crate::error::{PoisonError, TryLockError};
use crate::table::LockAttempt;

verus! {

/// What a blocking lock call hands back once the caller holds the lock of `key`:
/// the guard, or, where the lock is poisoned, an error that carries the key and the guard.
pub fn lock_result<K, G>(attempt: LockAttempt, key: K, guard: G) -> (r: Result<G, PoisonError<K, G>>)
    requires
        !(attempt is WouldBlock),
    ensures
        attempt is Acquired ==> r == Ok::<G, PoisonError<K, G>>(guard),
        attempt is Poisoned ==> r == Err::<G, PoisonError<K, G>>(PoisonError { key, guard }),
{
    match attempt {
        LockAttempt::Poisoned => Err(PoisonError { key, guard }),
        _ => Ok(guard),
    }
}

/// What a non-blocking lock call hands back: `guard` is present exactly when the
/// attempt left the caller holding the lock.
pub fn try_lock_result<K, G>(attempt: LockAttempt, key: K, guard: Option<G>) -> (r: Result<G, TryLockError<K, G>>)
    requires
        (attempt is WouldBlock) <==> guard is None,
    ensures
        attempt is Acquired ==> r == Ok::<G, TryLockError<K, G>>(guard.unwrap()),
        attempt is Poisoned ==> r == Err::<G, TryLockError<K, G>>(
            TryLockError::Poisoned(PoisonError { key, guard: guard.unwrap() }),
        ),
        attempt is WouldBlock ==> r == Err::<G, TryLockError<K, G>>(TryLockError::WouldBlock),
{
    match guard {
        None => Err(TryLockError::WouldBlock),
        Some(guard) => match lock_result(attempt, key, guard) {
            Ok(guard) => Ok(guard),
            Err(e) => Err(TryLockError::Poisoned(e)),
        },
    }
}

} // verus!
