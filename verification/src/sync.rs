//! The parts of `std::sync` that guard a shared pool. Verus has no
//! specification of them, so they are declared here and nothing is claimed of
//! what a lock holds: whatever is read through a guard is known only to be a
//! value of its type.
use std::sync::Mutex;
use std::sync::MutexGuard;
use std::sync::PoisonError;
use vstd::prelude::*;

verus! {

/// `std::sync::Mutex`, as an opaque type.
#[verifier::external_type_specification]
#[verifier::external_body]
#[verifier::reject_recursive_types(T)]
pub struct ExMutex<T: ?Sized>(Mutex<T>);

/// `std::sync::MutexGuard`, as an opaque type.
#[verifier::external_type_specification]
#[verifier::external_body]
#[verifier::reject_recursive_types(T)]
pub struct ExMutexGuard<'a, T: ?Sized + 'a>(MutexGuard<'a, T>);

/// `std::sync::PoisonError`, as an opaque type.
#[verifier::external_type_specification]
#[verifier::external_body]
#[verifier::reject_recursive_types(T)]
pub struct ExPoisonError<T>(PoisonError<T>);

/// `Mutex::new` wraps a value in an unlocked mutex. Nothing is claimed of
/// the result.
pub assume_specification<T>[ Mutex::<T>::new ](t: T) -> (m: Mutex<T>)
;

/// `Mutex::lock` waits for the lock and returns a guard, or an error if
/// the mutex is poisoned. Nothing is claimed of which of the two comes back,
/// nor of the value behind the guard. It may block or panic when the calling
/// thread already holds the lock; the callers in this crate take the lock
/// once and release it before they return.
pub assume_specification<'a, T: ?Sized>[ Mutex::<T>::lock ](m: &'a Mutex<T>) -> (r: Result<
    MutexGuard<'a, T>,
    PoisonError<MutexGuard<'a, T>>,
>)
;

/// `MutexGuard::deref` lends the guarded value. Nothing is claimed of it.
pub assume_specification<'a, 'b, T: ?Sized>[ <MutexGuard<'a, T> as core::ops::Deref>::deref ](
    g: &'b MutexGuard<'a, T>,
) -> (r: &'b T)
;

/// `MutexGuard::deref_mut` lends the guarded value for writing. Nothing is
/// claimed of it.
pub assume_specification<'a, 'b, T: ?Sized>[ <MutexGuard<'a, T> as core::ops::DerefMut>::deref_mut ](
    g: &'b mut MutexGuard<'a, T>,
) -> (r: &'b mut T)
;

} // verus!
