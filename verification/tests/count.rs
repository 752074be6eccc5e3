use semka::binary::{BinaryLock, FlagOp, Sem};
use semka::count::{give, take, CountOp, MAX_COUNT};

#[test]
fn should_take_down_to_zero_and_no_further() {
    assert_eq!(take(0), None);
    assert_eq!(take(1), Some(0));
    assert_eq!(take(2), Some(1));
    assert_eq!(take(u32::MAX), Some(u32::MAX - 1));
    assert_eq!(CountOp::Take.apply(0), None);
    assert_eq!(CountOp::Take.apply(41), Some(40));
}

#[test]
fn should_give_up_to_maximum_and_no_further() {
    assert_eq!(MAX_COUNT, u32::MAX);
    assert_eq!(give(0), Some(1));
    assert_eq!(give(41), Some(42));
    assert_eq!(give(u32::MAX - 1), Some(u32::MAX));
    assert_eq!(give(u32::MAX), None);
    assert_eq!(CountOp::Give.apply(u32::MAX), None);
    assert_eq!(CountOp::Give.apply(7), Some(8));
}

#[test]
fn should_lock_only_from_free() {
    assert_eq!(FlagOp::Lock.apply(false), Some(true));
    assert_eq!(FlagOp::Lock.apply(true), None);
    assert_eq!(FlagOp::Unlock.apply(true), Some(false));
    assert_eq!(FlagOp::Unlock.apply(false), Some(false));
}

#[test]
fn should_exclude_second_lock() {
    let sem = Sem::new_free().unwrap();
    assert!(sem.try_wait());
    assert!(!sem.try_wait());
    assert!(!sem.try_wait());
    sem.signal();
    assert!(sem.try_wait());
    assert!(!sem.try_wait());
    sem.signal();
    sem.signal();
    assert!(sem.try_wait());
    assert!(!sem.try_wait());
}

#[test]
fn should_start_locked_when_asked() {
    let sem = Sem::new(true);
    assert!(!sem.try_wait());
    assert!(sem.try_lock().is_none());
    sem.signal();
    assert!(sem.try_wait());

    let sem = Sem::new(false);
    assert!(sem.try_wait());
    assert!(!sem.try_wait());
}

#[test]
fn should_free_lock_when_guard_is_dropped() {
    let sem = Sem::new_free().unwrap();
    {
        let guard = sem.try_lock();
        assert!(guard.is_some());
        assert!(sem.try_lock().is_none());
        assert!(!sem.try_wait());
    }
    assert!(sem.try_wait());
    {
        let _guard = BinaryLock::new(&sem);
        assert!(!sem.try_wait());
    }
    assert!(sem.try_wait());
}

#[test]
fn should_bound_spin_on_taken_lock() {
    let sem = Sem::new(true);
    assert!(!sem.spin_wait(0));
    assert!(!sem.spin_wait(100));
    assert!(sem.spin_lock(100).is_none());
    sem.signal();
    assert!(!sem.spin_wait(0));
    assert!(sem.spin_lock(0).is_none());
    {
        let guard = sem.spin_lock(1);
        assert!(guard.is_some());
        assert!(!sem.spin_wait(5));
    }
    assert!(sem.spin_wait(5));
}
