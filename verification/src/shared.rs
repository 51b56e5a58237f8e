//! A store shared between a layer and the services made from it, behind
//! one lock.

use std::sync::{Mutex, MutexGuard};
use vstd::prelude::*;

verus! {

/// `std::sync::Mutex`, carried as an opaque value.
#[verifier::external_type_specification]
#[verifier::external_body]
#[verifier::reject_recursive_types(T)]
pub struct ExMutex<T: ?Sized>(Mutex<T>);

/// `std::sync::MutexGuard`, the held lock, carried as an opaque value.
#[verifier::external_type_specification]
#[verifier::external_body]
#[verifier::reject_recursive_types(T)]
pub struct ExMutexGuard<'a, T: ?Sized + 'a>(MutexGuard<'a, T>);

/// `std::sync::Mutex::new`: a mutex, unlocked, that holds the value.
/// Nothing is claimed of the mutex: what it holds at a later moment is
/// whatever the last holder of the lock left there.
#[verifier::external_body]
pub(crate) fn mutex_new<C>(store: C) -> (mutex: Mutex<C>) {
    Mutex::new(store)
}

/// `std::sync::Mutex::lock`: waits for the lock and returns its guard. A
/// lock poisoned by a panic elsewhere is taken all the same, so the call
/// neither fails nor panics. Nothing is claimed of what the guard holds.
#[verifier::external_body]
pub(crate) fn mutex_lock<'a, C>(mutex: &'a Mutex<C>) -> (guard: MutexGuard<'a, C>) {
    match mutex.lock() {
        Ok(guard) => guard,
        Err(poisoned) => poisoned.into_inner(),
    }
}

/// `DerefMut::deref_mut` of `std::sync::MutexGuard`: the value behind the
/// lock, for as long as the guard is borrowed. Nothing is claimed of the
/// value.
#[verifier::external_body]
pub(crate) fn guard_target<'a, 'b, C>(guard: &'a mut MutexGuard<'b, C>) -> (store: &'a mut C) {
    &mut **guard
}

} // verus!
