//! The parts of parking_lot that the lock is built on. The contents of a
//! `RwLock` change under shared references held by other threads, so nothing
//! is stated of them here: each call only hands its value through.
use vstd::prelude::*;

verus! {

#[verifier::external_type_specification]
#[verifier::external_body]
pub struct ExRawRwLock(parking_lot::RawRwLock);

#[verifier::external_type_specification]
#[verifier::external_body]
#[verifier::reject_recursive_types(R)]
#[verifier::reject_recursive_types(T)]
pub struct ExRwLock<R, T: ?Sized>(parking_lot::lock_api::RwLock<R, T>);

/// Relies on parking_lot::const_rwlock: a new, unlocked lock holding `val`.
#[verifier::external_body]
pub(crate) fn new_rwlock<T>(val: T) -> parking_lot::RwLock<T> {
    parking_lot::const_rwlock(val)
}

/// Relies on lock_api::RwLock::into_inner: the held value, moved out.
#[verifier::external_body]
pub(crate) fn rwlock_into_inner<T>(lock: parking_lot::RwLock<T>) -> T {
    lock.into_inner()
}

/// Relies on lock_api::RwLock::get_mut: the held value, without locking.
#[verifier::external_body]
pub(crate) fn rwlock_get_mut<T: ?Sized>(lock: &mut parking_lot::RwLock<T>) -> &mut T {
    lock.get_mut()
}

} // verus!
