//! The lock and the condition variable of the standard library, as far as
//! the queue uses them.
//!
//! Nothing is claimed of what a lock protects: whatever comes out of one is
//! looked at afresh by the code that took it.

use std::sync::{Condvar, Mutex, MutexGuard, PoisonError};
use vstd::prelude::*;

verus! {

/// `std::sync::Mutex`, taken as an opaque type.
#[verifier::external_type_specification]
#[verifier::external_body]
#[verifier::reject_recursive_types(X)]
pub struct ExMutex<X: ?Sized>(Mutex<X>);

/// `std::sync::MutexGuard`, taken as an opaque type.
#[verifier::external_type_specification]
#[verifier::external_body]
#[verifier::reject_recursive_types(X)]
pub struct ExMutexGuard<'a, X: ?Sized + 'a>(MutexGuard<'a, X>);

/// `std::sync::PoisonError`, taken as an opaque type.
#[verifier::external_type_specification]
#[verifier::external_body]
#[verifier::reject_recursive_types(X)]
pub struct ExPoisonError<X>(PoisonError<X>);

/// `std::sync::Condvar`, taken as an opaque type.
#[verifier::external_type_specification]
#[verifier::external_body]
pub struct ExCondvar(Condvar);

/// `Mutex::new`: a lock around `value`. Nothing is claimed of the result.
pub assume_specification<X>[ Mutex::<X>::new ](value: X) -> Mutex<X>
;

/// `Mutex::lock`: blocks until the lock is free and returns a guard, inside
/// an error if a thread panicked while it held the lock. A thread that
/// asks for a lock that it holds already may panic or never return: this
/// crate takes the lock once per operation and lets go of it at the end.
/// Nothing is claimed of what the guard gives access to.
pub assume_specification<'a, X: ?Sized>[ Mutex::<X>::lock ](mutex: &'a Mutex<X>) -> Result<
    MutexGuard<'a, X>,
    PoisonError<MutexGuard<'a, X>>,
>
;

/// `PoisonError::into_inner`: the guard that the error was wrapped around.
pub assume_specification<X>[ PoisonError::<X>::into_inner ](error: PoisonError<X>) -> X
;

/// `Condvar::new`: a condition variable that no thread waits on.
pub assume_specification[ Condvar::new ]() -> Condvar
;

/// `Condvar::notify_all`: wakes every thread that waits on the condition
/// variable. It returns nothing and nothing is claimed of it.
pub assume_specification[ Condvar::notify_all ](condvar: &Condvar)
;

/// `DerefMut::deref_mut` of `MutexGuard`: the value behind the lock, for as
/// long as the guard is borrowed. Nothing is claimed of the value.
#[verifier::external_body]
pub(crate) fn protected<'g, 'm, X>(guard: &'g mut MutexGuard<'m, X>) -> &'g mut X {
    &mut **guard
}

/// `guard` is the guard of the lock operation that ended as `locked`: the
/// one it returned, or the one that `PoisonError::into_inner` takes out of
/// its error.
pub open spec fn recovers<G>(locked: Result<G, PoisonError<G>>, guard: G) -> bool {
    match locked {
        Ok(given) => guard == given,
        Err(poisoned) => call_ensures(PoisonError::<G>::into_inner, (poisoned,), guard),
    }
}

/// The guard of a lock operation, whether or not the lock is poisoned.
///
/// A lock is poisoned when a thread panicked while holding it. The queue
/// keeps its invariant at every step, so what the lock protects is as good
/// as ever and the guard is used all the same.
pub(crate) fn recovered<G>(locked: Result<G, PoisonError<G>>) -> (guard: G)
    ensures
        recovers(locked, guard),
{
    match locked {
        Ok(guard) => guard,
        Err(poisoned) => poisoned.into_inner(),
    }
}

} // verus!
