//! The two phases of a fused lock and the decisions taken from an observed phase.
use vstd::prelude::*;

verus! {

/// The phase of a fused lock: open to writers, or fused for good.
#[derive(Clone, Copy, Debug, PartialEq, Eq, Structural)]
pub enum Phase {
    Open,
    Fused,
}

/// What an exclusive acquisition does next.
#[derive(Clone, Copy, Debug, PartialEq, Eq, Structural)]
pub enum Admission {
    /// Give up: the lock is fused, and stays fused.
    Refuse,
    /// Take the underlying lock exclusively, then look at the phase again.
    Acquire,
    /// Hand out exclusive access under the lock already held.
    Grant,
}

impl Phase {
    /// The phase that a reading of the fuse flag stands for.
    pub open spec fn of_flag(fused: bool) -> Phase {
        if fused {
            Phase::Fused
        } else {
            Phase::Open
        }
    }

    /// The phase after a fuse: fusing is the one transition, and it is idempotent.
    pub open spec fn fuse(self) -> Phase {
        Phase::Fused
    }

    /// Exclusive access may be handed out only while the lock is open.
    pub open spec fn admits_exclusive(self) -> bool {
        self == Phase::Open
    }

    /// Shared access without the underlying lock is sound only once fused.
    pub open spec fn admits_shared(self) -> bool {
        self == Phase::Fused
    }

    /// The next step of an exclusive acquisition that observed this phase,
    /// before (`holding_lock == false`) or after taking the underlying lock.
    pub open spec fn spec_admission(self, holding_lock: bool) -> Admission {
        if !self.admits_exclusive() {
            Admission::Refuse
        } else if holding_lock {
            Admission::Grant
        } else {
            Admission::Acquire
        }
    }

    pub fn from_flag(fused: bool) -> (p: Phase)
        ensures
            p == Phase::of_flag(fused),
    {
        if fused {
            Phase::Fused
        } else {
            Phase::Open
        }
    }

    pub fn is_fused(&self) -> (r: bool)
        ensures
            r == (*self == Phase::Fused),
    {
        match self {
            Phase::Open => false,
            Phase::Fused => true,
        }
    }

    pub fn grants_exclusive(&self) -> (r: bool)
        ensures
            r == self.admits_exclusive(),
    {
        !self.is_fused()
    }

    pub fn grants_shared(&self) -> (r: bool)
        ensures
            r == self.admits_shared(),
    {
        self.is_fused()
    }

    /// Decides the next step of an exclusive acquisition. A grant needs the
    /// phase to be seen open while the underlying lock is held: a reading taken
    /// before the lock was acquired may already be stale.
    pub fn admission(&self, holding_lock: bool) -> (a: Admission)
        ensures
            a == self.spec_admission(holding_lock),
            a == Admission::Grant ==> holding_lock && *self == Phase::Open,
            *self == Phase::Fused ==> a == Admission::Refuse,
    {
        match self {
            Phase::Fused => Admission::Refuse,
            Phase::Open => {
                if holding_lock {
                    Admission::Grant
                } else {
                    Admission::Acquire
                }
            },
        }
    }
}

} // verus!
