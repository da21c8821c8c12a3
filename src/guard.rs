//! Guards over the underlying locks. lock_api's guard types cannot be declared
//! to the verifier (their `RawRwLock` bound is not accepted), so each is held
//! in a struct whose inside the verifier does not see.
use vstd::prelude::*;

verus! {

/// Shared hold of the fence, the lock that orders writers against fusing.
#[verifier::external_body]
pub(crate) struct FenceShared<'a> {
    guard: parking_lot::RwLockReadGuard<'a, ()>,
}

/// Exclusive hold of the fence.
#[verifier::external_body]
pub(crate) struct FenceExclusive<'a> {
    guard: parking_lot::RwLockWriteGuard<'a, ()>,
}

/// Exclusive access to the value of an open `FusedRwLock`. Dropping it
/// releases the value and the fence; it does not touch the fuse flag.
#[verifier::external_body]
#[verifier::reject_recursive_types(T)]
pub struct FusedRwLockGuard<'a, T: ?Sized> {
    guard: parking_lot::RwLockWriteGuard<'a, T>,
    fence: parking_lot::RwLockWriteGuard<'a, ()>,
}

/// Shared access to the value of a fused `FusedRwLock`, held while it lives.
#[verifier::external_body]
#[verifier::reject_recursive_types(T)]
pub struct FusedRwLockReadGuard<'a, T: ?Sized> {
    guard: parking_lot::RwLockReadGuard<'a, T>,
}

/// Relies on lock_api::RwLock::read: blocks until shared access to the fence
/// is held. No thread keeps a shared hold of the fence beyond a fuse.
#[verifier::external_body]
pub(crate) fn fence_shared(fence: &parking_lot::RwLock<()>) -> FenceShared<'_> {
    FenceShared { guard: fence.read() }
}

/// Relies on lock_api::RwLock::write: blocks until the fence is held
/// exclusively.
#[verifier::external_body]
pub(crate) fn fence_exclusive(fence: &parking_lot::RwLock<()>) -> FenceExclusive<'_> {
    FenceExclusive { guard: fence.write() }
}

/// Relies on lock_api::RwLock::write: blocks until the value is held
/// exclusively, and keeps the fence held with it.
#[verifier::external_body]
pub(crate) fn value_exclusive<'a, T: ?Sized>(
    fence: FenceExclusive<'a>,
    value: &'a parking_lot::RwLock<T>,
) -> FusedRwLockGuard<'a, T> {
    FusedRwLockGuard { guard: value.write(), fence: fence.guard }
}

/// Relies on lock_api::RwLock::read_recursive: shared access to the value,
/// which never waits for a writer that is only queued, nor while another
/// shared hold exists.
#[verifier::external_body]
pub(crate) fn value_shared<T: ?Sized>(value: &parking_lot::RwLock<T>) -> FusedRwLockReadGuard<
    '_,
    T,
> {
    FusedRwLockReadGuard { guard: value.read_recursive() }
}

/// Relies on lock_api's `Deref` for `RwLockWriteGuard`: the guarded value.
#[verifier::external_body]
fn write_guard_ref<'b, 'a, T: ?Sized>(g: &'b FusedRwLockGuard<'a, T>) -> &'b T {
    &*g.guard
}

/// Relies on lock_api's `DerefMut` for `RwLockWriteGuard`: the guarded value.
#[verifier::external_body]
fn write_guard_mut<'b, 'a, T: ?Sized>(g: &'b mut FusedRwLockGuard<'a, T>) -> &'b mut T {
    &mut *g.guard
}

/// Relies on lock_api's `Deref` for `RwLockReadGuard`: the guarded value.
#[verifier::external_body]
fn read_guard_ref<'b, 'a, T: ?Sized>(g: &'b FusedRwLockReadGuard<'a, T>) -> &'b T {
    &*g.guard
}

impl<'a, T: ?Sized> std::ops::Deref for FusedRwLockGuard<'a, T> {
    type Target = T;

    fn deref(&self) -> &T {
        write_guard_ref(self)
    }
}

impl<'a, T: ?Sized> std::ops::DerefMut for FusedRwLockGuard<'a, T> {
    fn deref_mut(&mut self) -> &mut T {
        write_guard_mut(self)
    }
}

impl<'a, T: ?Sized> std::ops::Deref for FusedRwLockReadGuard<'a, T> {
    type Target = T;

    fn deref(&self) -> &T {
        read_guard_ref(self)
    }
}

} // verus!
