use std::collections::HashMap;
use std::hash::Hash;
use vstd::prelude::*;
use vstd::std_specs::hash::obeys_key_model;

use crate::error::UnpoisonError;

verus! {

broadcast use vstd::std_specs::hash::group_hash_axioms;

/// The state of the lock of one key.
#[derive(Clone, Copy, Debug, PartialEq, Eq, Structural)]
pub struct KeyState {
    /// How many users hold this lock or wait for it.
    pub holders: usize,
    /// Whether one of those users holds the lock.
    pub locked: bool,
    /// Whether a user panicked while holding the lock.
    pub poisoned: bool,
}

/// What an attempt to take the lock of a key gave.
#[derive(Clone, Copy, Debug, PartialEq, Eq, Structural)]
pub enum LockAttempt {
    /// The lock is now held by the caller.
    Acquired,
    /// The lock is now held by the caller, but a former holder panicked while holding it.
    Poisoned,
    /// The lock is held by another user; nothing changed.
    WouldBlock,
}

impl LockAttempt {
    /// Whether the attempt left the caller holding the lock.
    pub fn holds_lock(&self) -> (b: bool)
        ensures
            b == !(*self is WouldBlock),
    {
        match self {
            LockAttempt::WouldBlock => false,
            _ => true,
        }
    }
}

/// A key's lock as it is right after its first user registers for it.
pub open spec fn fresh_state() -> KeyState {
    KeyState { holders: 1, locked: false, poisoned: false }
}

/// What every entry of a lock table satisfies: an entry exists only while its lock is
/// held, waited for or poisoned, and only tables that support poisoning poison.
pub open spec fn state_ok(e: KeyState, poisoning: bool) -> bool {
    &&& e.holders > 0 || e.poisoned
    &&& e.locked ==> e.holders > 0
    &&& e.poisoned ==> poisoning
}

pub open spec fn table_ok<K>(m: Map<K, KeyState>, poisoning: bool) -> bool {
    forall|k: K| #[trigger] m.contains_key(k) ==> state_ok(m[k], poisoning)
}

/// Whether one more user of `k` can be counted.
pub open spec fn has_room<K>(m: Map<K, KeyState>, k: K) -> bool {
    m.contains_key(k) ==> m[k].holders < usize::MAX
}

/// The table after a user of `k` registers to wait for its lock.
pub open spec fn after_register<K>(m: Map<K, KeyState>, k: K) -> Map<K, KeyState> {
    if m.contains_key(k) {
        m.insert(k, KeyState { holders: (m[k].holders + 1) as usize, ..m[k] })
    } else {
        m.insert(k, fresh_state())
    }
}

/// What an attempt to take a lock in state `e` gives.
pub open spec fn attempt_of(e: KeyState) -> LockAttempt {
    if e.locked {
        LockAttempt::WouldBlock
    } else if e.poisoned {
        LockAttempt::Poisoned
    } else {
        LockAttempt::Acquired
    }
}

/// The table after a registered user of `k` tries to take its lock.
pub open spec fn after_acquire<K>(m: Map<K, KeyState>, k: K) -> Map<K, KeyState> {
    if m[k].locked {
        m
    } else {
        m.insert(k, KeyState { locked: true, ..m[k] })
    }
}

/// What a non-blocking attempt to lock `k` gives.
pub open spec fn try_lock_attempt<K>(m: Map<K, KeyState>, k: K) -> LockAttempt {
    if m.contains_key(k) {
        attempt_of(m[k])
    } else {
        LockAttempt::Acquired
    }
}

/// The table after a non-blocking attempt to lock `k`.
pub open spec fn after_try_lock<K>(m: Map<K, KeyState>, k: K) -> Map<K, KeyState> {
    if !m.contains_key(k) {
        m.insert(k, KeyState { holders: 1, locked: true, poisoned: false })
    } else if m[k].locked {
        m
    } else {
        m.insert(k, KeyState { holders: (m[k].holders + 1) as usize, locked: true, poisoned: m[k].poisoned })
    }
}

/// The table after the holder of `k`'s lock releases it; `panicking` tells whether it
/// is unwinding from a panic, which poisons the lock where the table supports poisoning.
pub open spec fn after_unlock<K>(m: Map<K, KeyState>, k: K, panicking: bool, poisoning: bool) -> Map<K, KeyState> {
    let poisoned = m[k].poisoned || (panicking && poisoning);
    let holders = (m[k].holders - 1) as usize;
    if holders == 0 && !poisoned {
        m.remove(k)
    } else {
        m.insert(k, KeyState { holders, locked: false, poisoned })
    }
}

/// The table after a user that waits for `k`'s lock, without holding it, gives up.
pub open spec fn after_cancel<K>(m: Map<K, KeyState>, k: K) -> Map<K, KeyState> {
    let holders = (m[k].holders - 1) as usize;
    if holders == 0 && !m[k].poisoned {
        m.remove(k)
    } else {
        m.insert(k, KeyState { holders, ..m[k] })
    }
}

/// What unpoisoning `k` answers.
pub open spec fn unpoison_result<K>(m: Map<K, KeyState>, k: K) -> Result<(), UnpoisonError> {
    if !m.contains_key(k) || !m[k].poisoned {
        Err(UnpoisonError::NotPoisoned)
    } else if m[k].holders != 0 {
        Err(UnpoisonError::OtherThreadsBlockedOnMutex)
    } else {
        Ok(())
    }
}

/// The table after unpoisoning `k`.
pub open spec fn after_unpoison<K>(m: Map<K, KeyState>, k: K) -> Map<K, KeyState> {
    if unpoison_result(m, k) is Ok {
        m.remove(k)
    } else {
        m
    }
}

/// The bookkeeping of a lock pool: for each key whose lock is held, waited for or
/// poisoned, the state of that lock. Keys that are absent are unlocked.
pub struct LockTable<K> {
    entries: HashMap<K, KeyState>,
    supports_poisoning: bool,
}

impl<K> View for LockTable<K> {
    type V = Map<K, KeyState>;

    closed spec fn view(&self) -> Map<K, KeyState> {
        self.entries@
    }
}

impl<K: Eq + Hash> LockTable<K> {
    /// Whether a holder that panics poisons its lock.
    pub closed spec fn can_poison(self) -> bool {
        self.supports_poisoning
    }

    pub open spec fn wf(self) -> bool {
        &&& obeys_key_model::<K>()
        &&& self@.dom().finite()
        &&& table_ok(self@, self.can_poison())
    }

    /// A table in which no lock is locked.
    pub fn new(supports_poisoning: bool) -> (t: Self)
        requires
            obeys_key_model::<K>(),
        ensures
            t.wf(),
            t@ == Map::<K, KeyState>::empty(),
            t.can_poison() == supports_poisoning,
    {
        LockTable { entries: HashMap::new(), supports_poisoning }
    }

    pub fn supports_poisoning(&self) -> (b: bool)
        ensures
            b == self.can_poison(),
    {
        self.supports_poisoning
    }

    /// The number of keys whose lock is held, waited for or poisoned.
    pub fn num_locked_or_poisoned(&self) -> (n: usize)
        requires
            self.wf(),
        ensures
            n == self@.len(),
    {
        self.entries.len()
    }

    /// The state of the lock of `key`, if it is held, waited for or poisoned.
    pub fn state(&self, key: &K) -> (s: Option<KeyState>)
        requires
            self.wf(),
        ensures
            s == (if self@.contains_key(*key) { Some(self@[*key]) } else { None::<KeyState> }),
    {
        match self.entries.get(key) {
            Some(e) => Some(*e),
            None => None,
        }
    }

    /// Whether one more user of `key` can be counted.
    pub fn has_room(&self, key: &K) -> (b: bool)
        requires
            self.wf(),
        ensures
            b == has_room(self@, *key),
    {
        match self.entries.get(key) {
            Some(e) => e.holders < usize::MAX,
            None => true,
        }
    }

    /// Counts one more user that waits for the lock of `key`.
    pub fn register(&mut self, key: K)
        requires
            old(self).wf(),
            has_room(old(self)@, key),
        ensures
            final(self).wf(),
            final(self).can_poison() == old(self).can_poison(),
            final(self)@ == after_register(old(self)@, key),
    {
        let next = match self.entries.get(&key) {
            Some(e) => KeyState { holders: e.holders + 1, locked: e.locked, poisoned: e.poisoned },
            None => KeyState { holders: 1, locked: false, poisoned: false },
        };
        self.entries.insert(key, next);
    }

    /// A registered user of `key` takes its lock if nobody holds it.
    pub fn try_acquire(&mut self, key: K) -> (a: LockAttempt)
        requires
            old(self).wf(),
            old(self)@.contains_key(key),
            old(self)@[key].holders > 0,
        ensures
            final(self).wf(),
            final(self).can_poison() == old(self).can_poison(),
            a == attempt_of(old(self)@[key]),
            final(self)@ == after_acquire(old(self)@, key),
    {
        let e = *self.entries.get(&key).unwrap();
        if e.locked {
            LockAttempt::WouldBlock
        } else {
            self.entries.insert(key, KeyState { holders: e.holders, locked: true, poisoned: e.poisoned });
            if e.poisoned {
                LockAttempt::Poisoned
            } else {
                LockAttempt::Acquired
            }
        }
    }

    /// Takes the lock of `key` if nobody holds it, without waiting.
    pub fn try_lock(&mut self, key: K) -> (a: LockAttempt)
        requires
            old(self).wf(),
            has_room(old(self)@, key),
        ensures
            final(self).wf(),
            final(self).can_poison() == old(self).can_poison(),
            a == try_lock_attempt(old(self)@, key),
            final(self)@ == after_try_lock(old(self)@, key),
    {
        match self.entries.get(&key) {
            None => {
                self.entries.insert(key, KeyState { holders: 1, locked: true, poisoned: false });
                LockAttempt::Acquired
            },
            Some(e) => {
                let e = *e;
                if e.locked {
                    LockAttempt::WouldBlock
                } else {
                    self.entries.insert(
                        key,
                        KeyState { holders: e.holders + 1, locked: true, poisoned: e.poisoned },
                    );
                    if e.poisoned {
                        LockAttempt::Poisoned
                    } else {
                        LockAttempt::Acquired
                    }
                }
            },
        }
    }

    /// The holder of `key`'s lock releases it. Where `panicking` and the table supports
    /// poisoning, the lock becomes poisoned. The entry is dropped once nobody holds or
    /// waits for the lock and it is not poisoned.
    pub fn unlock(&mut self, key: K, panicking: bool)
        requires
            old(self).wf(),
            old(self)@.contains_key(key),
            old(self)@[key].locked,
        ensures
            final(self).wf(),
            final(self).can_poison() == old(self).can_poison(),
            final(self)@ == after_unlock(old(self)@, key, panicking, old(self).can_poison()),
    {
        let e = *self.entries.get(&key).unwrap();
        let poisoned = e.poisoned || (panicking && self.supports_poisoning);
        let holders = e.holders - 1;
        if holders == 0 && !poisoned {
            self.entries.remove(&key);
        } else {
            self.entries.insert(key, KeyState { holders, locked: false, poisoned });
        }
    }

    /// A user that waits for `key`'s lock, without holding it, stops waiting.
    pub fn cancel(&mut self, key: K)
        requires
            old(self).wf(),
            old(self)@.contains_key(key),
            old(self)@[key].holders > (if old(self)@[key].locked { 1usize } else { 0usize }),
        ensures
            final(self).wf(),
            final(self).can_poison() == old(self).can_poison(),
            final(self)@ == after_cancel(old(self)@, key),
    {
        let e = *self.entries.get(&key).unwrap();
        let holders = e.holders - 1;
        if holders == 0 && !e.poisoned {
            self.entries.remove(&key);
        } else {
            self.entries.insert(key, KeyState { holders, locked: e.locked, poisoned: e.poisoned });
        }
    }

    /// Clears the poison of `key`'s lock. A lock that is not poisoned is answered
    /// `NotPoisoned`; a poisoned one is cleared only while nobody holds or waits for it. A cleared lock is dropped from the table.
    pub fn unpoison(&mut self, key: &K) -> (r: Result<(), UnpoisonError>)
        requires
            old(self).wf(),
            old(self).can_poison(),
        ensures
            final(self).wf(),
            final(self).can_poison() == old(self).can_poison(),
            r == unpoison_result(old(self)@, *key),
            final(self)@ == after_unpoison(old(self)@, *key),
    {
        match self.entries.get(key) {
            None => Err(UnpoisonError::NotPoisoned),
            Some(e) => {
                if !e.poisoned {
                    Err(UnpoisonError::NotPoisoned)
                } else if e.holders != 0 {
                    Err(UnpoisonError::OtherThreadsBlockedOnMutex)
                } else {
                    self.entries.remove(key);
                    Ok(())
                }
            },
        }
    }
}

} // verus!
