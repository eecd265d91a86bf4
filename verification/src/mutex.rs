use std::marker::PhantomData;
use vstd::prelude::*;

use crate::error::PoisonError;

verus! {

/// An error from locking a lock that nevertheless carries the acquired guard.
pub trait LockError<'a> {
    type Guard;

    fn into_inner(self) -> Self::Guard;
}

impl<'a, K, G> LockError<'a> for PoisonError<K, G> {
    type Guard = G;

    fn into_inner(self) -> (guard: G)
        ensures
            guard == self.guard,
    {
        self.guard
    }
}


/// The lock error of locks that cannot be poisoned: no value of this type exists.
pub struct Never<T> {
    _p: PhantomData<T>,
    _n: std::convert::Infallible,
}

impl<'a, T> LockError<'a> for Never<T> {
    type Guard = T;

    fn into_inner(self) -> T {
        from_infallible(self._n)
    }
}

/// Hands on a value of `std::convert::Infallible` as a value of any type.
/// Nothing is claimed of the result: the body is an empty `match`, which rustc
/// accepts only because `Infallible` has no values, so it never runs.
#[verifier::external_body]
fn from_infallible<T>(n: std::convert::Infallible) -> T {
    match n {}
}

} // verus!
