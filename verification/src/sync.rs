use std::sync::{Mutex, MutexGuard};
use vstd::prelude::*;

verus! {

#[verifier::external_type_specification]
#[verifier::external_body]
#[verifier::reject_recursive_types(T)]
pub struct ExMutex<T: ?Sized>(Mutex<T>);

#[verifier::external_type_specification]
#[verifier::external_body]
#[verifier::reject_recursive_types(T)]
pub struct ExMutexGuard<'a, T: ?Sized + 'a>(MutexGuard<'a, T>);

/// Calls `Mutex::new`. The mutex is opaque, so nothing is stated of it.
#[verifier::external_body]
pub(crate) fn new_mutex(value: u64) -> Mutex<u64> {
    Mutex::new(value)
}

/// Calls `Mutex::lock`. Where another thread panicked while holding the lock, the guard is
/// taken from the poison error (`PoisonError::into_inner`): the protected `u64` is only ever
/// replaced whole, so it is consistent either way. Nothing is stated of the guard. A thread
/// that already holds the lock must not call this; no function here locks twice.
#[verifier::external_body]
pub(crate) fn lock_mutex(mutex: &Mutex<u64>) -> MutexGuard<'_, u64> {
    match mutex.lock() {
        Ok(guard) => guard,
        Err(poisoned) => poisoned.into_inner(),
    }
}

/// The value that a guard protects. While the guard is held, only the guard can change it.
pub uninterp spec fn guarded(guard: MutexGuard<'_, u64>) -> u64;

/// Reads the value that a guard protects (`Deref`).
#[verifier::external_body]
pub(crate) fn guarded_value(guard: &MutexGuard<'_, u64>) -> (r: u64)
    ensures
        r == guarded(*guard),
{
    **guard
}

/// Replaces the value that a guard protects (`DerefMut`).
#[verifier::external_body]
pub(crate) fn set_guarded_value(guard: &mut MutexGuard<'_, u64>, value: u64)
    ensures
        guarded(*final(guard)) == value,
{
    **guard = value;
}

} // verus!
