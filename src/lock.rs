//! The fused lock.
//!
//! The fuse flag and the value change under shared references, by other
//! threads, and the verifier takes what a shared reference points to as fixed.
//! So these methods state nothing of the flag or the value. What they decide
//! from a reading of the flag is decided by `Phase`, whose contracts are exact.
use vstd::prelude::*;
use std::sync::atomic::{AtomicBool, Ordering};
use crate::guard::{
    fence_exclusive, fence_shared, value_exclusive, value_shared, FenceExclusive,
    FusedRwLockGuard, FusedRwLockReadGuard,
};
use crate::outside::{new_rwlock, rwlock_get_mut, rwlock_into_inner};
use crate::phase::{Admission, Phase};

verus! {

/// A reader-writer lock that can be locked exclusively any number of times in
/// a row, until it is fused; from then on it is read-only for good.
///
/// Writers and fusing are ordered by `fence`: a writer holds it exclusively
/// and looks at the flag again once it has it, and a fuse sets the flag while
/// holding it shared. So once the flag is set, no thread takes `value`
/// exclusively again, nor waits to. The value stays in its own lock, from
/// which readers take shared holds that never wait after fusing: the value
/// never leaves that lock, so taking it out by value or by `&mut` cannot fail.
#[verifier::reject_recursive_types(T)]
pub struct FusedRwLock<T: ?Sized> {
    fence: parking_lot::RwLock<()>,
    locked: AtomicBool,
    value: parking_lot::RwLock<T>,
}

impl<T: Default> Default for FusedRwLock<T> {
    fn default() -> Self {
        Self::new(T::default())
    }
}

impl<T> FusedRwLock<T> {
    /// A new lock, open, holding `x`.
    pub fn new(x: T) -> Self {
        FusedRwLock { fence: new_rwlock(()), locked: AtomicBool::new(false), value: new_rwlock(x) }
    }

    /// Moves the value out. Owning the lock rules out any other access.
    pub fn into_inner(self) -> T {
        rwlock_into_inner(self.value)
    }
}

impl<T: ?Sized> FusedRwLock<T> {
    /// The phase, read without synchronisation. `Fused` is final; `Open` may
    /// be stale by the time it is used.
    fn observed_phase(&self) -> Phase {
        Phase::from_flag(self.locked.load(Ordering::Relaxed))
    }

    /// The phase, read so that a `Fused` reading also makes every write made
    /// before fusing visible.
    fn published_phase(&self) -> Phase {
        Phase::from_flag(self.locked.load(Ordering::Acquire))
    }

    /// The value, mutably, if the lock has not been fused. Borrowing the
    /// lock mutably rules out any other access, so no locking is needed.
    pub fn try_get_mut(&mut self) -> Option<&mut T> {
        let p = self.observed_phase();
        self.exclusive_at(p)
    }

    /// The value, mutably, when `p` is the phase the lock is in.
    fn exclusive_at(&mut self, p: Phase) -> (r: Option<&mut T>)
        ensures
            r is Some <==> p.admits_exclusive(),
    {
        if p.grants_exclusive() {
            Some(rwlock_get_mut(&mut self.value))
        } else {
            None
        }
    }

    /// The value, mutably, even after fusing. Changing the value of a fused
    /// lock defeats the purpose of fusing; it is left to the caller not to.
    pub fn get_mut_unlocked(&mut self) -> &mut T {
        rwlock_get_mut(&mut self.value)
    }

    /// Whether the lock has been fused. This gives no synchronisation and
    /// serves as a hint: `true` stays true for the lifetime of the lock,
    /// `false` may be outdated at once.
    pub fn is_locked(&self) -> bool {
        self.observed_phase().is_fused()
    }

    /// Fuses the lock. Waits out a writer that holds the lock, so that its
    /// writes come before the flag is published; after this no writer is
    /// admitted again. Calling it again changes nothing. A thread that holds
    /// a guard of this lock must not call it.
    pub fn lock(&self) {
        let _shared = fence_shared(&self.fence);
        self.locked.store(true, Ordering::Release);
    }

    /// Shared access to the value, if the lock has been fused. It never waits:
    /// once fused, no thread holds the value exclusively or waits to.
    pub fn try_read(&self) -> Option<FusedRwLockReadGuard<'_, T>> {
        self.shared_at(self.published_phase())
    }

    /// Shared access to the value, given `p`, a reading of the phase that
    /// publishes every write made before fusing.
    fn shared_at(&self, p: Phase) -> (r: Option<FusedRwLockReadGuard<'_, T>>)
        ensures
            r is Some <==> p.admits_shared(),
    {
        if p.grants_shared() {
            Some(value_shared(&self.value))
        } else {
            None
        }
    }

    /// Shared access to the value, fusing the lock first if need be.
    pub fn read(&self) -> FusedRwLockReadGuard<'_, T> {
        self.fuse_unless(self.published_phase());
        value_shared(&self.value)
    }

    /// Fuses the lock unless `p` already shows it fused; says whether it did.
    fn fuse_unless(&self, p: Phase) -> (fused_here: bool)
        ensures
            fused_here <==> !p.admits_shared(),
    {
        if p.is_fused() {
            false
        } else {
            self.lock();
            true
        }
    }

    /// Exclusive access to the value, if the lock has not been fused. The
    /// phase is looked at again once the fence is held, since a fuse may have
    /// come in between; only then is the value taken. Locks are not
    /// re-entrant: a thread that holds a guard of this lock must not call it.
    pub fn try_write(&self) -> Option<FusedRwLockGuard<'_, T>> {
        self.exclusive_from(self.observed_phase())
    }

    /// The fast path of `try_write`: a reading `first`, taken before the
    /// fence, that shows the lock fused refuses at once, without waiting.
    /// Otherwise the fence is taken and the phase is read again under it.
    fn exclusive_from(&self, first: Phase) -> (r: Option<FusedRwLockGuard<'_, T>>)
        ensures
            !first.admits_exclusive() ==> r is None,
            r is Some ==> first.admits_exclusive(),
    {
        match first.admission(false) {
            Admission::Acquire => {
                let fence = fence_exclusive(&self.fence);
                self.exclusive_under_fence(fence)
            },
            _ => None,
        }
    }

    /// With the fence held exclusively no fuse can run, so a reading of the
    /// phase taken now stays valid for as long as the fence is held.
    fn exclusive_under_fence<'a>(&'a self, fence: FenceExclusive<'a>) -> Option<
        FusedRwLockGuard<'a, T>,
    > {
        let p = self.observed_phase();
        self.grant_at(fence, p)
    }

    /// Exclusive access to the value, given the fence and `p`, a reading of
    /// the phase taken while holding it.
    fn grant_at<'a>(&'a self, fence: FenceExclusive<'a>, p: Phase) -> (r: Option<
        FusedRwLockGuard<'a, T>,
    >)
        ensures
            r is Some <==> p.admits_exclusive(),
    {
        match p.admission(true) {
            Admission::Grant => Some(value_exclusive(fence, &self.value)),
            _ => None,
        }
    }
}

} // verus!
