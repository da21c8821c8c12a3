//! An abstract model of a fused lock: a sequential state machine of what each
//! operation does to the phase and the value, and what it hands out. The laws
//! below hold of every history of operations in this model. `FusedRwLock` is
//! not checked against the model; they share only the decisions of `Phase`.
use vstd::prelude::*;
use crate::phase::Phase;

verus! {

/// The abstract state of a lock: its phase and the value it protects.
pub struct LockModel<T> {
    pub phase: Phase,
    pub value: T,
}

/// One operation on a lock.
pub enum Event<T> {
    /// An exclusive acquisition that leaves `T` behind when released.
    Write(T),
    /// `lock`.
    Fuse,
    /// `read`, which fuses first if need be.
    Read,
    /// `try_read`, which changes nothing.
    TryRead,
}

impl<T> LockModel<T> {
    /// A new lock holding `v`.
    pub open spec fn initial(v: T) -> LockModel<T> {
        LockModel { phase: Phase::Open, value: v }
    }

    /// What an exclusive acquisition sees: the value, if the lock is open.
    pub open spec fn exclusive(self) -> Option<T> {
        if self.phase.admits_exclusive() {
            Some(self.value)
        } else {
            None
        }
    }

    /// What a shared acquisition sees: the value, if the lock is fused.
    pub open spec fn shared(self) -> Option<T> {
        if self.phase.admits_shared() {
            Some(self.value)
        } else {
            None
        }
    }

    /// The state after one operation.
    pub open spec fn step(self, e: Event<T>) -> LockModel<T> {
        match e {
            Event::Write(v) => if self.phase.admits_exclusive() {
                LockModel { phase: self.phase, value: v }
            } else {
                self
            },
            Event::Fuse => LockModel { phase: self.phase.fuse(), value: self.value },
            Event::Read => LockModel { phase: self.phase.fuse(), value: self.value },
            Event::TryRead => self,
        }
    }

    /// The state after a sequence of operations, in order.
    pub open spec fn run(self, es: Seq<Event<T>>) -> LockModel<T>
        decreases es.len(),
    {
        if es.len() == 0 {
            self
        } else {
            self.run(es.drop_last()).step(es.last())
        }
    }
}

/// The exclusive episodes that leave the values of `vs` behind, in order.
pub open spec fn writes<T>(vs: Seq<T>) -> Seq<Event<T>> {
    vs.map_values(|v: T| Event::Write(v))
}

/// `n` calls of `lock`.
pub open spec fn fuses<T>(n: nat) -> Seq<Event<T>> {
    Seq::new(n, |i: int| Event::Fuse)
}

/// A fused lock is frozen: no sequence of operations changes its phase or
/// its value.
pub proof fn lemma_fused_is_frozen<T>(m: LockModel<T>, es: Seq<Event<T>>)
    requires
        m.phase == Phase::Fused,
    ensures
        m.run(es) == m,
    decreases es.len(),
{
    if es.len() > 0 {
        lemma_fused_is_frozen(m, es.drop_last());
    }
}

/// Exclusive acquisitions made before any fuse all succeed, and each one
/// sees the value that the one before it left.
pub proof fn lemma_writes_before_fuse<T>(m: LockModel<T>, vs: Seq<T>)
    requires
        m.phase == Phase::Open,
    ensures
        forall|i: int|
            0 <= i <= vs.len() ==> #[trigger] m.run(writes(vs).take(i)).exclusive() == Some(
                if i == 0 {
                    m.value
                } else {
                    vs[i - 1]
                },
            ),
        m.run(writes(vs)).phase == Phase::Open,
    decreases vs.len(),
{
    if vs.len() > 0 {
        let front = vs.drop_last();
        lemma_writes_before_fuse(m, front);
        assert forall|i: int| 0 <= i <= vs.len() implies #[trigger] m.run(
            writes(vs).take(i),
        ).exclusive() == Some(
            if i == 0 {
                m.value
            } else {
                vs[i - 1]
            },
        ) by {
            if i < vs.len() {
                assert(writes(vs).take(i) =~= writes(front).take(i));
            } else {
                assert(writes(vs).take(i).drop_last() =~= writes(front).take(i - 1));
                assert(writes(front).take(i - 1) =~= writes(front));
                assert(m.run(writes(front).take(i - 1)).phase == Phase::Open);
            }
        }
        assert(writes(vs).take(vs.len() as int) =~= writes(vs));
        assert(writes(vs).drop_last() =~= writes(front));
    }
}

/// Once `lock` or `read` has returned, the lock reports itself fused after
/// any further operations.
pub proof fn lemma_fused_for_good<T>(
    m: LockModel<T>,
    before: Seq<Event<T>>,
    fusing: Event<T>,
    after: Seq<Event<T>>,
)
    requires
        fusing is Fuse || fusing is Read,
    ensures
        m.run(before).step(fusing).run(after).phase == Phase::Fused,
{
    lemma_fused_is_frozen(m.run(before).step(fusing), after);
}

/// After fusing, every exclusive acquisition is refused.
pub proof fn lemma_no_exclusive_after_fuse<T>(m: LockModel<T>, after: Seq<Event<T>>)
    ensures
        m.step(Event::Fuse).run(after).exclusive() is None,
{
    lemma_fused_is_frozen(m.step(Event::Fuse), after);
}

/// After fusing, every shared acquisition succeeds, and all of them see the
/// same value: the one the lock held when it was fused.
pub proof fn lemma_shared_after_fuse<T>(
    m: LockModel<T>,
    after1: Seq<Event<T>>,
    after2: Seq<Event<T>>,
)
    ensures
        m.step(Event::Fuse).run(after1).shared() == Some(m.value),
        m.step(Event::Fuse).run(after1).shared() == m.step(Event::Fuse).run(after2).shared(),
{
    lemma_fused_is_frozen(m.step(Event::Fuse), after1);
    lemma_fused_is_frozen(m.step(Event::Fuse), after2);
}

/// A value written under exclusive access and then fused is what every
/// later shared acquisition sees.
pub proof fn lemma_fuse_publishes_last_write<T>(
    m: LockModel<T>,
    before: Seq<Event<T>>,
    v: T,
    after: Seq<Event<T>>,
)
    requires
        m.run(before).phase == Phase::Open,
    ensures
        m.run(before).step(Event::Write(v)).step(Event::Fuse).run(after).shared() == Some(v),
{
    lemma_fused_is_frozen(m.run(before).step(Event::Write(v)).step(Event::Fuse), after);
}

/// Fusing any number of times, or reading after fusing, leaves the same
/// fused state with the same value as fusing once.
pub proof fn lemma_fuse_idempotent<T>(m: LockModel<T>, n: nat)
    requires
        n >= 1,
    ensures
        m.run(fuses(n)) == m.step(Event::Fuse),
        m.step(Event::Fuse).step(Event::Read) == m.step(Event::Fuse),
        m.step(Event::Read) == m.step(Event::Fuse),
    decreases n,
{
    let es = fuses::<T>(n);
    assert(es.last() == Event::<T>::Fuse);
    if n == 1 {
        assert(es.drop_last() =~= Seq::<Event<T>>::empty());
        assert(m.run(es.drop_last()) == m);
    } else {
        lemma_fuse_idempotent(m, (n - 1) as nat);
        assert(es.drop_last() =~= fuses::<T>((n - 1) as nat));
    }
}

} // verus!
