use semka::deadline::{TimeSpec, Timeout};
use semka::outcome::{poll_verdict, Step};
use semka::sem::Guard;
use semka::Sem;
use std::time;

fn clock() -> TimeSpec {
    let since = time::SystemTime::now()
        .duration_since(time::UNIX_EPOCH)
        .unwrap();
    TimeSpec {
        sec: since.as_secs() as i64,
        nsec: since.subsec_nanos() as i64,
    }
}

fn wait_timeout(sem: &Sem, duration: time::Duration) -> bool {
    let deadline = clock().after(Timeout::from_duration(duration));
    loop {
        match poll_verdict(sem.try_wait(), clock(), deadline) {
            Step::Acquired => return true,
            Step::Missed => return false,
            Step::Retry => std::hint::spin_loop(),
            Step::Fatal => unreachable!(),
        }
    }
}

#[test]
fn should_init_after_close() {
    let sem = Sem::new(0).unwrap();

    assert!(!sem.init(0));

    sem.close();
    sem.close();

    assert!(sem.init(0));
    assert!(!sem.init(0));

    assert!(!sem.try_wait());
    sem.signal();
    sem.signal();
    assert!(sem.try_wait());
    assert!(sem.try_wait());

    assert!(!sem.try_wait());

    sem.close();
    sem.close();
}

#[test]
fn should_fail_init_twice() {
    let sem = Sem::new_uninit();

    assert!(sem.init(0));
    assert!(!sem.init(0));

    assert!(!sem.try_wait());
    sem.signal();
    sem.signal();
    assert!(sem.try_wait());
    assert!(sem.try_wait());

    assert!(!sem.try_wait());
}

#[test]
fn should_return_when_signaled_counting() {
    let sem = Sem::new(0).unwrap();

    assert!(!sem.try_wait());
    sem.signal();
    sem.signal();
    assert!(sem.try_wait());
    assert!(sem.try_wait());

    assert!(!sem.try_wait());
}

#[test]
fn should_timeout_on_wait() {
    let sem = Sem::new(0).unwrap();
    assert!(!sem.try_wait());

    let before = time::Instant::now();
    assert!(!wait_timeout(&sem, time::Duration::from_millis(2500)));
    let after = time::Instant::now();

    let duration = after.duration_since(before);
    println!("duration={:?}", duration);
    assert!(duration.as_millis() > 2000 && duration.as_millis() < 3000);
}

#[test]
fn should_not_wait_out_the_timeout_when_signaled() {
    let sem = Sem::new(1).unwrap();

    let before = time::Instant::now();
    assert!(wait_timeout(&sem, time::Duration::from_millis(2500)));
    assert!(before.elapsed().as_millis() < 1000);
    assert!(!sem.try_wait());
}

#[test]
fn should_spend_initial_count_exactly() {
    for initial in [0u32, 1, 2, 7, 100] {
        let sem = Sem::new(initial).unwrap();
        for _ in 0..initial {
            assert!(sem.try_wait());
        }
        assert!(!sem.try_wait());
        assert!(!sem.try_wait());
    }
}

#[test]
fn should_count_through_lock_and_drop() {
    let sem = Sem::new(0).unwrap();
    assert!(sem.try_lock().is_none());

    sem.signal();
    sem.signal();

    let guard = sem.spin_lock(u32::MAX);
    assert!(guard.is_some());
    assert!(sem.try_wait());
    assert!(!sem.try_wait());

    drop(guard);
    assert!(sem.try_wait());
    assert!(!sem.try_wait());
}

#[test]
fn should_signal_once_when_guard_is_moved() {
    let sem = Sem::new(1).unwrap();
    let guard = sem.try_lock().unwrap();
    let moved = guard;
    assert!(!sem.try_wait());
    let boxed = Box::new(moved);
    assert!(!sem.try_wait());
    drop(boxed);
    assert!(sem.try_wait());
    assert!(!sem.try_wait());
}

#[test]
fn should_signal_when_guard_made_by_hand_is_dropped() {
    let sem = Sem::new(3).unwrap();
    assert!(sem.try_wait());
    assert!(sem.try_wait());
    assert!(sem.try_wait());
    assert!(!sem.try_wait());
    {
        let _guard = Guard::new(&sem);
    }
    assert!(sem.try_wait());
    assert!(!sem.try_wait());
}

#[test]
fn should_report_init_state() {
    let sem = Sem::new_uninit();
    assert!(!sem.is_init());
    assert!(sem.init(5));
    assert!(sem.is_init());
    sem.close();
    assert!(!sem.is_init());
    sem.close();
    assert!(!sem.is_init());
}

#[test]
fn should_reset_count_on_init_after_close() {
    let sem = Sem::new(3).unwrap();
    assert!(sem.is_init());
    assert!(sem.try_wait());
    sem.close();
    sem.close();
    assert!(sem.init(2));
    assert!(sem.try_wait());
    assert!(sem.try_wait());
    assert!(!sem.try_wait());

    sem.close();
    assert!(sem.init(0));
    assert!(!sem.try_wait());
}

#[test]
fn should_keep_first_count_when_init_is_repeated() {
    let sem = Sem::new_uninit();
    assert!(sem.init(2));
    assert!(!sem.init(9));
    assert!(sem.try_wait());
    assert!(sem.try_wait());
    assert!(!sem.try_wait());
}

#[test]
fn should_drop_signal_at_maximum_count() {
    let sem = Sem::new(semka::MAX_COUNT).unwrap();
    sem.signal();
    assert!(sem.try_wait());
    sem.signal();
    sem.signal();
    assert!(sem.try_wait());
    sem.close();
    assert!(sem.init(1));
    assert!(sem.try_wait());
    assert!(!sem.try_wait());
}

#[test]
fn should_bound_spin_wait() {
    let sem = Sem::new(1).unwrap();
    assert!(!sem.spin_wait(0));
    assert!(sem.spin_wait(1));
    assert!(!sem.spin_wait(1000));
    sem.signal();
    assert!(sem.spin_wait(1000));
    assert!(sem.spin_lock(0).is_none());
    assert!(sem.spin_lock(10).is_none());
    sem.signal();
    {
        let guard = sem.spin_lock(10);
        assert!(guard.is_some());
        assert!(!sem.try_wait());
    }
    assert!(sem.try_wait());
}

#[test]
fn should_act_as_lock_when_binary() {
    let sem = Sem::new_binary().unwrap();
    let held = sem.try_lock();
    assert!(held.is_some());
    assert!(sem.try_lock().is_none());
    drop(held);
    assert!(sem.try_lock().is_some());
    assert!(sem.try_lock().is_some());
}
