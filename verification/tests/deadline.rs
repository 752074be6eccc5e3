use semka::deadline::{
    reinterpret, relative, saturating_add, wait_millis, MachTimeSpec, TimeSpec, Timeout,
    NANOS_PER_SEC,
};
use std::time::Duration;

fn at(sec: i64, nsec: i64) -> TimeSpec {
    TimeSpec { sec, nsec }
}

fn lasting(secs: u64, nanos: u32) -> Timeout {
    Timeout { secs, nanos }
}

#[test]
fn should_add_timeout_to_clock() {
    assert_eq!(NANOS_PER_SEC, 1_000_000_000);
    assert_eq!(at(10, 500_000_000).after(lasting(2, 400_000_000)), at(12, 900_000_000));
    assert_eq!(at(10, 0).after(lasting(0, 0)), at(10, 0));
    assert_eq!(at(0, 1).after(lasting(0, 999_999_998)), at(0, 999_999_999));
    assert_eq!(at(-5, 0).after(lasting(3, 7)), at(-2, 7));
}

#[test]
fn should_carry_full_second_and_start_nanoseconds_over() {
    assert_eq!(at(10, 600_000_000).after(lasting(2, 500_000_000)), at(13, 0));
    assert_eq!(at(0, 500_000_000).after(lasting(0, 500_000_000)), at(1, 0));
    assert_eq!(at(0, 999_999_999).after(lasting(0, 999_999_999)), at(1, 0));
    assert_eq!(at(7, 999_999_999).after(lasting(0, 1)), at(8, 0));
    assert_eq!(at(7, 0).after(lasting(1, 4_000_000_000)), at(9, 0));
}

#[test]
fn should_saturate_at_end_of_clock() {
    assert_eq!(at(i64::MAX, 0).after(lasting(5, 0)), at(i64::MAX, 0));
    assert_eq!(at(i64::MAX - 1, 0).after(lasting(5, 3)), at(i64::MAX, 3));
    assert_eq!(at(i64::MAX, 999_999_999).after(lasting(0, 1)), at(i64::MAX, 0));
    assert_eq!(at(0, i64::MAX).after(lasting(0, 1)), at(1, 0));
    assert_eq!(at(i64::MAX - 1, 999_999_999).after(lasting(0, 1)), at(i64::MAX, 0));
}

#[test]
fn should_read_oversized_seconds_as_cast_does() {
    assert_eq!(reinterpret(0), 0);
    assert_eq!(reinterpret(i64::MAX as u64), i64::MAX);
    assert_eq!(reinterpret(0x8000_0000_0000_0000), i64::MIN);
    assert_eq!(reinterpret(u64::MAX), -1);
    assert_eq!(reinterpret(u64::MAX - 9), -10);
    for secs in [0u64, 1, 1 << 62, (1 << 63) - 1, 1 << 63, (1 << 63) + 12345, u64::MAX] {
        assert_eq!(reinterpret(secs), secs as i64);
    }
    assert_eq!(at(0, 0).after(lasting(u64::MAX, 0)), at(-1, 0));
    assert_eq!(at(100, 5).after(lasting(1 << 63, 0)), at(i64::MIN + 100, 5));
    assert_eq!(at(-100, 5).after(lasting(1 << 63, 0)), at(i64::MIN, 5));
}

#[test]
fn should_saturate_sums() {
    assert_eq!(saturating_add(1, 2), 3);
    assert_eq!(saturating_add(-1, -2), -3);
    assert_eq!(saturating_add(i64::MAX, 1), i64::MAX);
    assert_eq!(saturating_add(i64::MAX, i64::MAX), i64::MAX);
    assert_eq!(saturating_add(i64::MIN, -1), i64::MIN);
    assert_eq!(saturating_add(i64::MIN, i64::MIN), i64::MIN);
    assert_eq!(saturating_add(i64::MIN, i64::MAX), -1);
    assert_eq!(saturating_add(i64::MAX, i64::MIN), -1);
    for (a, b) in [(5i64, i64::MAX), (i64::MAX - 5, 5), (i64::MIN + 5, -5), (-7, i64::MIN), (0, 0)] {
        assert_eq!(saturating_add(a, b), a.saturating_add(b));
    }
}

#[test]
fn should_compare_clock_with_deadline() {
    assert!(at(5, 0).reached(at(5, 0)));
    assert!(at(5, 1).reached(at(5, 0)));
    assert!(at(6, 0).reached(at(5, 999_999_999)));
    assert!(!at(5, 0).reached(at(5, 1)));
    assert!(!at(4, 999_999_999).reached(at(5, 0)));
    assert!(at(-1, 0).reached(at(-2, 5)));
}

#[test]
fn should_clamp_relative_timeout_for_mach() {
    assert_eq!(relative(lasting(5, 7)), MachTimeSpec { tv_sec: 5, tv_nsec: 7 });
    assert_eq!(relative(lasting(0, 0)), MachTimeSpec { tv_sec: 0, tv_nsec: 0 });
    assert_eq!(
        relative(lasting(u32::MAX as u64, 999_999_999)),
        MachTimeSpec { tv_sec: u32::MAX, tv_nsec: 999_999_999 }
    );
    assert_eq!(
        relative(lasting(u32::MAX as u64 + 1, 1)),
        MachTimeSpec { tv_sec: u32::MAX, tv_nsec: 1 }
    );
    assert_eq!(relative(lasting(u64::MAX, 0)), MachTimeSpec { tv_sec: u32::MAX, tv_nsec: 0 });
    assert_eq!(
        relative(lasting(1, 3_000_000_000)),
        MachTimeSpec { tv_sec: 1, tv_nsec: i32::MAX }
    );
    assert_eq!(
        relative(lasting(1, i32::MAX as u32)),
        MachTimeSpec { tv_sec: 1, tv_nsec: i32::MAX }
    );
}

#[test]
fn should_clamp_milliseconds_for_kernel_object() {
    assert_eq!(wait_millis(lasting(0, 0)), 0);
    assert_eq!(wait_millis(lasting(2, 500_000_000)), 2500);
    assert_eq!(wait_millis(lasting(0, 999_999)), 0);
    assert_eq!(wait_millis(lasting(0, 1_000_000)), 1);
    assert_eq!(wait_millis(lasting(4_294_967, 294_999_999)), 4_294_967_294);
    assert_eq!(wait_millis(lasting(4_294_967, 295_000_000)), u32::MAX);
    assert_eq!(wait_millis(lasting(4_294_967, 296_000_000)), u32::MAX);
    assert_eq!(wait_millis(lasting(4_294_968, 0)), u32::MAX);
    assert_eq!(wait_millis(lasting(u64::MAX, 999_999_999)), u32::MAX);
    assert_eq!(wait_millis(lasting(1, 4_294_967_295)), 5294);
    for timeout in [lasting(3, 1), lasting(4_294_967, 500_000_000), lasting(1 << 40, 0)] {
        let duration = Duration::new(timeout.secs, timeout.nanos);
        let expected = u32::try_from(duration.as_millis()).unwrap_or(u32::MAX);
        assert_eq!(wait_millis(timeout), expected);
    }
}

#[test]
fn should_split_milliseconds() {
    assert_eq!(Timeout::from_millis(2500), lasting(2, 500_000_000));
    assert_eq!(Timeout::from_millis(0), lasting(0, 0));
    assert_eq!(Timeout::from_millis(999), lasting(0, 999_000_000));
    assert_eq!(Timeout::from_millis(1000), lasting(1, 0));
    assert_eq!(
        Timeout::from_millis(u64::MAX),
        lasting(18_446_744_073_709_551, 615_000_000)
    );
}

#[test]
fn should_read_duration() {
    assert_eq!(Timeout::from_duration(Duration::from_millis(2500)), lasting(2, 500_000_000));
    assert_eq!(Timeout::from_duration(Duration::from_secs(0)), lasting(0, 0));
    assert_eq!(Timeout::from_duration(Duration::new(3, 999_999_999)), lasting(3, 999_999_999));
    assert_eq!(Timeout::from_duration(Duration::new(3, 1_000_000_001)), lasting(4, 1));
    assert_eq!(Timeout::from_duration(Duration::MAX), lasting(u64::MAX, 999_999_999));
}

#[test]
fn should_keep_deadline_at_or_after_start() {
    let starts = [at(0, 0), at(1_700_000_000, 123_456_789), at(-3, 999_999_999)];
    let timeouts = [lasting(0, 0), lasting(0, 1), lasting(2, 500_000_000), lasting(9, 999_999_999)];
    for now in starts {
        for timeout in timeouts {
            let deadline = now.after(timeout);
            assert!(deadline.reached(now));
            assert!(0 <= deadline.nsec && deadline.nsec < NANOS_PER_SEC);
            let exact = (now.sec as i128) * 1_000_000_000
                + now.nsec as i128
                + (timeout.secs as i128) * 1_000_000_000
                + timeout.nanos as i128;
            let got = (deadline.sec as i128) * 1_000_000_000 + deadline.nsec as i128;
            assert!(got <= exact && exact - got < 1_000_000_000);
        }
    }
}
