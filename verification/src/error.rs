use vstd::prelude::*;

verus! {

/// A lock was acquired, but the previous holder of that lock panicked while holding it.
///
/// The error still holds the lock: `guard` releases it when dropped.
#[derive(Debug)]
pub struct PoisonError<K, G> {
    pub key: K,
    pub guard: G,
}

/// Why a non-blocking lock attempt did not hand out a clean guard.
#[derive(Debug)]
pub enum TryLockError<K, G> {
    /// The lock was acquired, but it is poisoned.
    Poisoned(PoisonError<K, G>),
    /// The lock is currently held by someone else.
    WouldBlock,
}

/// Why a poisoned lock could not be cleared.
#[derive(Clone, Copy, Debug, PartialEq, Eq, Structural)]
pub enum UnpoisonError {
    /// There is no poisoned lock for this key.
    NotPoisoned,
    /// The lock of this key is poisoned, but it is currently held or waited for.
    OtherThreadsBlockedOnMutex,
}

} // verus!
