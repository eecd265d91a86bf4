//! A pool of locks indexed by key, as a verified state machine.
//!
//! [`LockTable`] holds, for every key whose lock is held, waited for or poisoned, the
//! state of that lock, and decides every step: registering a waiter, taking a free lock,
//! a non-blocking attempt, releasing (and poisoning on a panic), giving up a wait, and
//! unpoisoning. The functions of [`laws`] state what holds across these steps.
mod error;
mod mutex;
pub mod table;
mod pool;
pub mod laws;

pub use error::{PoisonError, TryLockError, UnpoisonError};
pub use mutex::{LockError, Never};
pub use table::{KeyState, LockAttempt, LockTable};
pub use pool::{lock_result, try_lock_result};
