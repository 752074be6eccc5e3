//! Turning "wait this long" into what a platform wants to hear.
//!
//! POSIX wants the moment at which to give up, on the real-time clock. Mach
//! wants the length of the wait in seconds and nanoseconds of its own widths.
//! Windows wants milliseconds in 32 bits. Each conversion has an edge where
//! the plain sum does not fit, and each is proved to do there what it says.

use vstd::prelude::*;
use std::time::Duration;

verus! {

/// Nanoseconds in a second.
pub const NANOS_PER_SEC: i64 = 1_000_000_000;

/// How long a bounded wait may last.
#[derive(Clone, Copy, PartialEq, Eq, Debug, Structural)]
pub struct Timeout {
    /// Whole seconds.
    pub secs: u64,
    /// The rest, in nanoseconds.
    pub nanos: u32,
}

/// A moment on a platform clock, or a length of time, as seconds and
/// nanoseconds.
#[derive(Clone, Copy, PartialEq, Eq, Debug, Structural)]
pub struct TimeSpec {
    /// Whole seconds.
    pub sec: i64,
    /// The rest, in nanoseconds.
    pub nsec: i64,
}

/// The length of a wait as Mach takes it.
#[derive(Clone, Copy, PartialEq, Eq, Debug, Structural)]
pub struct MachTimeSpec {
    /// Whole seconds.
    pub tv_sec: u32,
    /// The rest, in nanoseconds.
    pub tv_nsec: i32,
}

/// The whole seconds of a duration, as `Duration::as_secs` gives them.
pub uninterp spec fn duration_secs(duration: Duration) -> u64;

/// The nanoseconds of a duration beyond its whole seconds, as
/// `Duration::subsec_nanos` gives them.
pub uninterp spec fn duration_subsec_nanos(duration: Duration) -> u32;

/// `Duration::as_secs` returns the whole seconds of the duration; the same
/// duration always gives the same number.
pub assume_specification[ Duration::as_secs ](duration: &Duration) -> (secs: u64)
    ensures
        secs == duration_secs(*duration),
;

/// `Duration::subsec_nanos` returns the part of the duration below one
/// second, in nanoseconds; it is documented to be less than one thousand
/// million.
pub assume_specification[ Duration::subsec_nanos ](duration: &Duration) -> (nanos: u32)
    ensures
        nanos == duration_subsec_nanos(*duration),
        nanos < 1_000_000_000,
;

/// `sum` brought into the range of `i64`: a sum that is too large becomes the
/// largest value, one that is too small the smallest.
pub open spec fn saturated(sum: int) -> i64 {
    if sum > i64::MAX {
        i64::MAX
    } else if sum < i64::MIN {
        i64::MIN
    } else {
        sum as i64
    }
}

/// An unsigned number of seconds read as a signed one of the same width, the
/// way a cast reads it: values above the signed maximum come out negative.
pub open spec fn reinterpreted(secs: u64) -> i64 {
    if secs <= i64::MAX {
        secs as i64
    } else {
        (secs - 0x1_0000_0000_0000_0000) as i64
    }
}

impl Timeout {
    /// A timeout is well formed when its nanoseconds stay below one second.
    pub open spec fn wf(self) -> bool {
        self.nanos < NANOS_PER_SEC
    }

    /// The timeout in whole milliseconds, rounded down.
    pub open spec fn spec_millis(self) -> nat {
        (self.secs * 1000 + self.nanos / 1_000_000) as nat
    }

    /// The timeout in nanoseconds.
    pub open spec fn spec_total_nanos(self) -> int {
        self.secs * NANOS_PER_SEC + self.nanos
    }

    /// A timeout of `millis` milliseconds.
    pub fn from_millis(millis: u64) -> (timeout: Timeout)
        ensures
            timeout.wf(),
            timeout.secs == millis / 1000,
            timeout.nanos == (millis % 1000) * 1_000_000,
            timeout.spec_millis() == millis,
    {
        let rest: u64 = millis % 1000;
        Timeout { secs: millis / 1000, nanos: (rest * 1_000_000) as u32 }
    }

    /// The timeout that `duration` stands for.
    pub fn from_duration(duration: Duration) -> (timeout: Timeout)
        ensures
            timeout.wf(),
            timeout.secs == duration_secs(duration),
            timeout.nanos == duration_subsec_nanos(duration),
    {
        Timeout { secs: duration.as_secs(), nanos: duration.subsec_nanos() }
    }
}

impl TimeSpec {
    /// A time is well formed when its nanoseconds lie in `0 .. 1_000_000_000`.
    pub open spec fn wf(self) -> bool {
        0 <= self.nsec < NANOS_PER_SEC
    }

    /// The time in nanoseconds.
    pub open spec fn spec_total_nanos(self) -> int {
        self.sec * NANOS_PER_SEC + self.nsec
    }

    /// Whether this moment is at or after `deadline`.
    pub open spec fn spec_reached(self, deadline: TimeSpec) -> bool {
        self.sec > deadline.sec || (self.sec == deadline.sec && self.nsec >= deadline.nsec)
    }

    /// The moment at which a wait of `timeout` that starts now must give up.
    ///
    /// Seconds and nanoseconds are added separately, each sum saturating.
    /// Where the nanoseconds reach a full second, one second is carried and
    /// the nanoseconds start again from zero. A number of seconds too large
    /// for the signed clock is read as a cast reads it.
    pub open spec fn spec_after(self, timeout: Timeout) -> TimeSpec {
        let sec = saturated(self.sec + reinterpreted(timeout.secs));
        let nsec = saturated(self.nsec + timeout.nanos);
        if nsec >= NANOS_PER_SEC {
            TimeSpec { sec: saturated(sec + 1), nsec: 0 }
        } else {
            TimeSpec { sec, nsec }
        }
    }

    /// Whether this moment is at or after `deadline`.
    #[verifier::when_used_as_spec(spec_reached)]
    pub fn reached(self, deadline: TimeSpec) -> (over: bool)
        ensures
            over == self.spec_reached(deadline),
    {
        self.sec > deadline.sec || (self.sec == deadline.sec && self.nsec >= deadline.nsec)
    }

    /// The absolute deadline of a wait of `timeout` that starts at this
    /// moment of the real-time clock.
    #[verifier::when_used_as_spec(spec_after)]
    pub fn after(self, timeout: Timeout) -> (deadline: TimeSpec)
        ensures
            deadline == self.spec_after(timeout),
    {
        let sec = saturating_add(self.sec, reinterpret(timeout.secs));
        let nsec = saturating_add(self.nsec, timeout.nanos as i64);
        if nsec >= NANOS_PER_SEC {
            TimeSpec { sec: saturating_add(sec, 1), nsec: 0 }
        } else {
            TimeSpec { sec, nsec }
        }
    }
}

/// The sum of `a` and `b`, kept within `i64`.
pub fn saturating_add(a: i64, b: i64) -> (sum: i64)
    ensures
        sum == saturated(a + b),
{
    if b >= 0 {
        if a > i64::MAX - b {
            i64::MAX
        } else {
            a + b
        }
    } else {
        if a < i64::MIN - b {
            i64::MIN
        } else {
            a + b
        }
    }
}

/// Reads an unsigned number of seconds as a signed one of the same width.
#[verifier::when_used_as_spec(reinterpreted)]
pub fn reinterpret(secs: u64) -> (signed: i64)
    ensures
        signed == reinterpreted(secs),
{
    if secs <= 0x7FFF_FFFF_FFFF_FFFF {
        secs as i64
    } else {
        let low: u64 = secs - 0x8000_0000_0000_0000;
        (low as i64) + i64::MIN
    }
}

/// The length of a wait of `timeout` as Mach takes it: each part is the
/// timeout's own where it fits, and the largest value of its type where it
/// does not.
pub open spec fn spec_relative(timeout: Timeout) -> MachTimeSpec {
    MachTimeSpec {
        tv_sec: if timeout.secs > u32::MAX {
            u32::MAX
        } else {
            timeout.secs as u32
        },
        tv_nsec: if timeout.nanos > i32::MAX {
            i32::MAX
        } else {
            timeout.nanos as i32
        },
    }
}

/// Converts `timeout` into the relative time that `semaphore_timedwait`
/// takes.
#[verifier::when_used_as_spec(spec_relative)]
pub fn relative(timeout: Timeout) -> (spec: MachTimeSpec)
    ensures
        spec == spec_relative(timeout),
{
    MachTimeSpec {
        tv_sec: if timeout.secs > 0xFFFF_FFFF {
            u32::MAX
        } else {
            timeout.secs as u32
        },
        tv_nsec: if timeout.nanos > 0x7FFF_FFFF {
            i32::MAX
        } else {
            timeout.nanos as i32
        },
    }
}

/// The milliseconds that a kernel-object wait is given for `timeout`: its
/// length in whole milliseconds where that fits in 32 bits, and the largest
/// 32-bit value where it does not.
pub open spec fn spec_wait_millis(timeout: Timeout) -> u32 {
    if timeout.spec_millis() > u32::MAX {
        u32::MAX
    } else {
        timeout.spec_millis() as u32
    }
}

/// Converts `timeout` into the milliseconds that `WaitForSingleObject` takes.
#[verifier::when_used_as_spec(spec_wait_millis)]
pub fn wait_millis(timeout: Timeout) -> (millis: u32)
    ensures
        millis == spec_wait_millis(timeout),
{
    if timeout.secs > 4_294_967 {
        u32::MAX
    } else {
        let whole: u64 = timeout.secs * 1000;
        let rest: u64 = (timeout.nanos / 1_000_000) as u64;
        let total: u64 = whole + rest;
        if total > 0xFFFF_FFFF {
            u32::MAX
        } else {
            total as u32
        }
    }
}

/// A deadline computed from a well-formed moment and a well-formed timeout is
/// well formed: its nanoseconds stay below one second.
pub proof fn law_deadline_is_well_formed(now: TimeSpec, timeout: Timeout)
    requires
        now.wf(),
        timeout.wf(),
    ensures
        now.spec_after(timeout).wf(),
{
}

/// A deadline does not lie before the moment it was computed from, as long
/// as the timeout's seconds fit the signed clock and the clock has a second
/// to spare.
pub proof fn law_deadline_not_before_start(now: TimeSpec, timeout: Timeout)
    requires
        now.wf(),
        timeout.secs <= i64::MAX,
        now.sec < i64::MAX,
    ensures
        now.spec_after(timeout).spec_reached(now),
{
}

/// Where nothing saturates, the deadline is the start plus the timeout, to
/// the nanosecond, unless a second was carried; then it is the full second
/// at or below that sum, which is less than a second early. It is never
/// late.
pub proof fn law_deadline_is_the_sum(now: TimeSpec, timeout: Timeout)
    requires
        now.wf(),
        timeout.wf(),
        timeout.secs <= i64::MAX,
        i64::MIN <= now.sec + timeout.secs + 1 <= i64::MAX,
    ensures
        now.nsec + timeout.nanos < NANOS_PER_SEC ==> now.spec_after(timeout).spec_total_nanos()
            == now.spec_total_nanos() + timeout.spec_total_nanos(),
        now.spec_after(timeout).spec_total_nanos() <= now.spec_total_nanos()
            + timeout.spec_total_nanos(),
        now.spec_total_nanos() + timeout.spec_total_nanos() < now.spec_after(
            timeout,
        ).spec_total_nanos() + NANOS_PER_SEC,
{
}

/// A timeout that fits is handed to the platform unchanged, and one that
/// does not fit is never handed on as a shorter wait than the longest the
/// platform can express.
pub proof fn law_conversions_clamp(timeout: Timeout)
    ensures
        timeout.spec_millis() <= u32::MAX ==> spec_wait_millis(timeout) == timeout.spec_millis(),
        timeout.spec_millis() > u32::MAX ==> spec_wait_millis(timeout) == u32::MAX,
        timeout.secs <= u32::MAX ==> spec_relative(timeout).tv_sec == timeout.secs,
        timeout.secs > u32::MAX ==> spec_relative(timeout).tv_sec == u32::MAX,
        timeout.wf() ==> spec_relative(timeout).tv_nsec == timeout.nanos,
{
}

} // verus!
