//! The standard library's lock, shared pointer and atomic store, as far as
//! the channel uses them.
//!
//! Nothing in this file is proved: each item states what the standard
//! library documents of the function it names.

use vstd::prelude::*;
use std::sync::atomic::AtomicUsize;
use std::sync::atomic::Ordering;
use std::sync::Arc;
use std::sync::Mutex;
use std::sync::MutexGuard;
use std::sync::TryLockError;

verus! {

/// `std::sync::Mutex`, of which nothing is known but its name.
#[verifier::external_type_specification]
#[verifier::external_body]
#[verifier::reject_recursive_types(T)]
pub struct ExMutex<T: ?Sized>(Mutex<T>);

/// `std::sync::MutexGuard`, of which nothing is known but its name.
#[verifier::external_type_specification]
#[verifier::external_body]
#[verifier::reject_recursive_types(T)]
pub struct ExMutexGuard<'a, T: ?Sized + 'a>(MutexGuard<'a, T>);

/// `Mutex::new`: a new lock around `t`. Nothing is claimed of it.
pub assume_specification<T>[ Mutex::<T>::new ](t: T) -> (lock: Mutex<T>)
;

/// `Mutex::try_lock`: takes the lock if it is free and returns at once if
/// it is not; the thread is never parked. A lock whose holder panicked is
/// taken all the same. Nothing is claimed of what the guard holds, nor of
/// when the lock is free.
#[verifier::external_body]
pub(crate) fn try_acquire<'a, V>(lock: &'a Mutex<V>) -> (guard: Option<MutexGuard<'a, V>>) {
    match lock.try_lock() {
        Ok(guard) => Some(guard),
        Err(TryLockError::Poisoned(poisoned)) => Some(poisoned.into_inner()),
        Err(TryLockError::WouldBlock) => None,
    }
}

/// `DerefMut::deref_mut` of a `MutexGuard`: the value behind the lock, for
/// as long as the guard is borrowed. Nothing is claimed of the value.
#[verifier::external_body]
pub(crate) fn locked<'a, 'b, V>(guard: &'a mut MutexGuard<'b, V>) -> (value: &'a mut V) {
    &mut **guard
}

/// `Arc::clone`: one more pointer to the same allocation.
#[verifier::external_body]
pub(crate) fn share<V>(pointer: &Arc<V>) -> (other: Arc<V>)
    ensures
        other == *pointer,
{
    Arc::clone(pointer)
}

/// `AtomicUsize::store`, sequentially consistent: writes `value` into
/// `indicator`. With this ordering the store never unwinds, so a destructor
/// may make it. Nothing is claimed of what a later load returns.
#[verifier::external_body]
pub(crate) fn store_seq_cst(indicator: &AtomicUsize, value: usize)
    opens_invariants none
    no_unwind
{
    indicator.store(value, Ordering::SeqCst);
}

} // verus!
