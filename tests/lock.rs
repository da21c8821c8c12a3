use fused_rwlock::{Admission, FusedRwLock, FusedRwLockGuard, Phase};

#[test]
fn new_lock_is_open() {
    let lock = FusedRwLock::new(7u32);
    assert!(!lock.is_locked());
    assert!(lock.try_read().is_none());
}

#[test]
fn default_holds_default_value() {
    let lock: FusedRwLock<u64> = FusedRwLock::default();
    assert!(!lock.is_locked());
    assert_eq!(lock.into_inner(), 0);
}

#[test]
fn into_inner_returns_last_write() {
    let lock = FusedRwLock::new(String::from("a"));
    {
        let mut g = lock.try_write().unwrap();
        g.push('b');
    }
    assert_eq!(lock.into_inner(), "ab");
}

#[test]
fn into_inner_after_fuse() {
    let lock = FusedRwLock::new(vec![1, 2, 3]);
    lock.lock();
    assert_eq!(lock.into_inner(), vec![1, 2, 3]);
}

#[test]
fn try_get_mut_while_open() {
    let mut lock = FusedRwLock::new(1i32);
    *lock.try_get_mut().unwrap() = 5;
    assert_eq!(*lock.read(), 5);
}

#[test]
fn try_get_mut_after_fuse_is_none() {
    let mut lock = FusedRwLock::new(1i32);
    lock.lock();
    assert!(lock.try_get_mut().is_none());
    assert_eq!(*lock.try_read().unwrap(), 1);
}

#[test]
fn get_mut_unlocked_ignores_fuse() {
    let mut lock = FusedRwLock::new(1i32);
    lock.lock();
    *lock.get_mut_unlocked() = 9;
    assert_eq!(*lock.try_read().unwrap(), 9);
    assert!(lock.is_locked());
}

#[test]
fn writes_before_fuse_see_previous_value() {
    let lock = FusedRwLock::new(0u32);
    for i in 0..10u32 {
        let mut g = lock.try_write().unwrap();
        assert_eq!(*g, i);
        *g = i + 1;
    }
    assert_eq!(*lock.read(), 10);
}

#[test]
fn fused_stays_fused() {
    let lock = FusedRwLock::new(3u8);
    lock.lock();
    assert!(lock.is_locked());
    for _ in 0..5 {
        assert!(lock.try_write().is_none());
        lock.lock();
        let _ = lock.read();
        assert!(lock.is_locked());
    }
}

#[test]
fn read_fuses_the_lock() {
    let lock = FusedRwLock::new(3u8);
    assert_eq!(*lock.read(), 3);
    assert!(lock.is_locked());
    assert!(lock.try_write().is_none());
}

#[test]
fn try_write_refused_after_fuse() {
    let lock = FusedRwLock::new(0u32);
    lock.lock();
    for _ in 0..100 {
        assert!(lock.try_write().is_none());
    }
    assert_eq!(*lock.try_read().unwrap(), 0);
}

#[test]
fn shared_guards_coexist_after_fuse() {
    let lock = FusedRwLock::new(vec![4u8, 5, 6]);
    lock.lock();
    let guards: Vec<_> = (0..8).map(|_| lock.try_read().unwrap()).collect();
    for g in &guards {
        assert_eq!(**g, vec![4u8, 5, 6]);
    }
    let r = lock.read();
    assert_eq!(*r, vec![4u8, 5, 6]);
}

#[test]
fn fused_write_is_what_reads_see() {
    let lock = FusedRwLock::new(0u64);
    *lock.try_write().unwrap() = 42;
    lock.lock();
    assert!(lock.is_locked());
    assert_eq!(*lock.try_read().unwrap(), 42);
}

#[test]
fn repeated_fuse_is_idempotent() {
    let lock = FusedRwLock::new(11u32);
    *lock.try_write().unwrap() = 12;
    for i in 0..8 {
        if i % 2 == 0 {
            lock.lock();
        } else {
            assert_eq!(*lock.read(), 12);
        }
        assert!(lock.is_locked());
    }
    assert!(lock.try_write().is_none());
    assert_eq!(*lock.try_read().unwrap(), 12);
}

#[test]
fn write_then_read_scenario() {
    let lock = FusedRwLock::new(0i32);
    {
        let mut g = lock.try_write().unwrap();
        *g = 1;
    }
    {
        let mut g = lock.try_write().unwrap();
        *g = 2;
    }
    assert_eq!(*lock.read(), 2);
    assert!(lock.try_write().is_none());
    let guards: Vec<_> = (0..100).map(|_| lock.try_read().unwrap()).collect();
    assert_eq!(guards.len(), 100);
    for g in &guards {
        assert_eq!(**g, 2);
    }
}

#[test]
fn guard_reads_and_writes() {
    let lock = FusedRwLock::new(vec![1u8]);
    let mut g: FusedRwLockGuard<'_, Vec<u8>> = lock.try_write().unwrap();
    assert_eq!(g.len(), 1);
    g.push(2);
    assert_eq!(*g, vec![1u8, 2]);
    drop(g);
    let g2 = lock.try_write().unwrap();
    assert_eq!(*g2, vec![1u8, 2]);
}

#[test]
fn phase_from_flag() {
    assert_eq!(Phase::from_flag(false), Phase::Open);
    assert_eq!(Phase::from_flag(true), Phase::Fused);
    assert!(Phase::Fused.is_fused());
    assert!(!Phase::Open.is_fused());
}

#[test]
fn phase_grants() {
    assert!(Phase::Open.grants_exclusive());
    assert!(!Phase::Fused.grants_exclusive());
    assert!(Phase::Fused.grants_shared());
    assert!(!Phase::Open.grants_shared());
}

#[test]
fn admission_double_check() {
    assert_eq!(Phase::Open.admission(false), Admission::Acquire);
    assert_eq!(Phase::Open.admission(true), Admission::Grant);
    assert_eq!(Phase::Fused.admission(false), Admission::Refuse);
    assert_eq!(Phase::Fused.admission(true), Admission::Refuse);
}

#[test]
fn read_while_holding_read_guard() {
    let lock = FusedRwLock::new(5u16);
    let first = lock.read();
    let second = lock.read();
    let third = lock.try_read().unwrap();
    assert!(lock.try_write().is_none());
    assert_eq!((*first, *second, *third), (5, 5, 5));
}

#[test]
fn held_read_guard_does_not_block_fuse_or_refusal() {
    let lock = FusedRwLock::new(1u8);
    let g = lock.read();
    lock.lock();
    assert!(lock.try_write().is_none());
    assert_eq!(*lock.try_read().unwrap(), 1);
    assert_eq!(*g, 1);
}

#[test]
fn unsized_value() {
    let mut lock: Box<FusedRwLock<[u8]>> = Box::new(FusedRwLock::new([1u8, 2, 3]));
    lock.try_get_mut().unwrap()[0] = 9;
    {
        let mut g = lock.try_write().unwrap();
        g[1] = 8;
    }
    assert_eq!(&*lock.read(), &[9u8, 8, 3][..]);
    assert!(lock.try_get_mut().is_none());
}
