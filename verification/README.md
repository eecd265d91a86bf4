# lockpool

A pool of locks indexed by key. Locking a key that another user holds waits until that
user releases it; a holder that panics poisons the lock of a pool that supports
poisoning, and a poisoned lock stays poisoned until it is unpoisoned.

- `src/` is verified with Verus. `table.rs` holds `LockTable`, the bookkeeping of every
  key's lock (how many users hold or wait for it, whether it is held, whether it is
  poisoned), with one exact contract per step. `laws.rs` proves what holds across steps:
  a lock and its release restore the table, a held lock excludes every other attempt,
  other keys are never touched, poison sticks until it is cleared, and when unpoisoning
  succeeds. `pool.rs` turns an attempt into the result a caller sees, and `error.rs` and
  `mutex.rs` hold the error types.
- `app/` is the plumbing around it: the pool types `SyncLockPool` and `TokioLockPool`,
  which keep a `LockTable` behind a mutex, let blocked threads wait on a condition
  variable and blocked tasks on a `tokio::sync::Notify`, and release locks from the
  `Drop` of their guards.
