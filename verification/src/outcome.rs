//! What to do after a native call has returned.
//!
//! A native wait can end in four ways, and the caller's loop needs to know
//! which: the count was taken, the answer is a plain "no", the call must be
//! made again, or something happened that no wait is prepared for. The
//! functions here give that verdict. They never block and never fail; the
//! caller makes the call, hands over what came back, and acts on the verdict.

use vstd::prelude::*;
use crate::deadline::TimeSpec;
use crate::errno::{last_error_class, ErrorClass};

verus! {

/// The verdict on one native call.
#[derive(Clone, Copy, PartialEq, Eq, Debug, Structural)]
pub enum Step {
    /// The count was decremented. A wait is over; a bounded wait returns
    /// `true`.
    Acquired,
    /// The count was not decremented and will not be by this call: return
    /// `false`.
    Missed,
    /// Nothing was decided. Make the same call again, with the same deadline.
    Retry,
    /// The platform reported what this call never expects. There is nothing
    /// to return; the caller aborts.
    Fatal,
}

/// What a POSIX call returns when it failed and left an error code behind.
pub const POSIX_FAILED: i32 = -1;

/// What `WaitForSingleObject` returns when the object was signalled.
pub const WAIT_OBJECT_0: u32 = 0;

/// What `WaitForSingleObject` returns when the time ran out.
pub const WAIT_TIMEOUT: u32 = 0x0000_0102;

/// The timeout that `WaitForSingleObject` reads as "for ever".
pub const INFINITE: u32 = 0xFFFF_FFFF;

/// What a Mach semaphore call returns on success.
pub const KERN_SUCCESS: i32 = 0;

/// What `semaphore_timedwait` returns when the time ran out.
pub const KERN_OPERATION_TIMED_OUT: i32 = 49;

/// The verdict on a blocking POSIX wait that returned `res`, where `class` is
/// the class of the error it left if it failed. An interrupted wait is made
/// again; no other failure is expected.
pub open spec fn spec_wait_verdict(res: i32, class: ErrorClass) -> Step {
    if res != POSIX_FAILED {
        Step::Acquired
    } else if class == ErrorClass::Interrupted {
        Step::Retry
    } else {
        Step::Fatal
    }
}

/// The verdict on a non-blocking POSIX wait that returned `res`. A count of
/// zero is a plain "no"; an interrupted attempt is made again and never
/// passed off as a "no".
pub open spec fn spec_try_wait_verdict(res: i32, class: ErrorClass) -> Step {
    if res != POSIX_FAILED {
        Step::Acquired
    } else {
        match class {
            ErrorClass::WouldBlock => Step::Missed,
            ErrorClass::Interrupted => Step::Retry,
            _ => Step::Fatal,
        }
    }
}

/// The verdict on a POSIX wait with a deadline that returned `res`. A
/// deadline that went by is a plain "no", and so is a count that the platform
/// reports as unavailable; an interrupted wait is made again.
pub open spec fn spec_timed_wait_verdict(res: i32, class: ErrorClass) -> Step {
    if res != POSIX_FAILED {
        Step::Acquired
    } else {
        match class {
            ErrorClass::WouldBlock => Step::Missed,
            ErrorClass::TimedOut => Step::Missed,
            ErrorClass::Interrupted => Step::Retry,
            ErrorClass::Other => Step::Fatal,
        }
    }
}

/// The verdict on a wait for a kernel object that returned `result`. Only a
/// wait that was given a bound may run out of time.
pub open spec fn spec_wait_object_verdict(result: u32, bounded: bool) -> Step {
    if result == WAIT_OBJECT_0 {
        Step::Acquired
    } else if result == WAIT_TIMEOUT && bounded {
        Step::Missed
    } else {
        Step::Fatal
    }
}

/// The verdict on a Mach semaphore wait that returned `result`. Only a wait
/// that was given a bound may run out of time.
pub open spec fn spec_kern_verdict(result: i32, bounded: bool) -> Step {
    if result == KERN_SUCCESS {
        Step::Acquired
    } else if result == KERN_OPERATION_TIMED_OUT && bounded {
        Step::Missed
    } else {
        Step::Fatal
    }
}

/// The verdict on one attempt of a wait that polls: `acquired` says whether
/// the attempt took the count, `now` is the clock after the attempt. The wait
/// goes on until the count is taken or the deadline is reached.
pub open spec fn spec_poll_verdict(acquired: bool, now: TimeSpec, deadline: TimeSpec) -> Step {
    if acquired {
        Step::Acquired
    } else if now.spec_reached(deadline) {
        Step::Missed
    } else {
        Step::Retry
    }
}

/// The verdict on a blocking POSIX wait, from its return value and the class
/// of the error it left.
#[verifier::when_used_as_spec(spec_wait_verdict)]
pub fn wait_verdict(res: i32, class: ErrorClass) -> (step: Step)
    ensures
        step == spec_wait_verdict(res, class),
{
    if res != POSIX_FAILED {
        Step::Acquired
    } else {
        match class {
            ErrorClass::Interrupted => Step::Retry,
            _ => Step::Fatal,
        }
    }
}

/// The verdict on a non-blocking POSIX wait, from its return value and the
/// class of the error it left.
#[verifier::when_used_as_spec(spec_try_wait_verdict)]
pub fn try_wait_verdict(res: i32, class: ErrorClass) -> (step: Step)
    ensures
        step == spec_try_wait_verdict(res, class),
{
    if res != POSIX_FAILED {
        Step::Acquired
    } else {
        match class {
            ErrorClass::WouldBlock => Step::Missed,
            ErrorClass::Interrupted => Step::Retry,
            _ => Step::Fatal,
        }
    }
}

/// The verdict on a POSIX wait with a deadline, from its return value and the
/// class of the error it left.
#[verifier::when_used_as_spec(spec_timed_wait_verdict)]
pub fn timed_wait_verdict(res: i32, class: ErrorClass) -> (step: Step)
    ensures
        step == spec_timed_wait_verdict(res, class),
{
    if res != POSIX_FAILED {
        Step::Acquired
    } else {
        match class {
            ErrorClass::WouldBlock => Step::Missed,
            ErrorClass::TimedOut => Step::Missed,
            ErrorClass::Interrupted => Step::Retry,
            ErrorClass::Other => Step::Fatal,
        }
    }
}

/// The verdict on `sem_wait` straight after it returned `res`. The error code
/// is read only if the call failed. A call that did not fail has taken the
/// count; one that failed has not, and is never reported as a "no".
pub fn after_wait(res: i32) -> (step: Step)
    ensures
        res != POSIX_FAILED ==> step == Step::Acquired,
        res == POSIX_FAILED ==> step == Step::Retry || step == Step::Fatal,
{
    if res != POSIX_FAILED {
        Step::Acquired
    } else {
        wait_verdict(res, last_error_class())
    }
}

/// The verdict on `sem_trywait` straight after it returned `res`. The error
/// code is read only if the call failed.
pub fn after_try_wait(res: i32) -> (step: Step)
    ensures
        res != POSIX_FAILED <==> step == Step::Acquired,
{
    if res != POSIX_FAILED {
        Step::Acquired
    } else {
        try_wait_verdict(res, last_error_class())
    }
}

/// The verdict on `sem_timedwait` straight after it returned `res`. The error
/// code is read only if the call failed.
pub fn after_timed_wait(res: i32) -> (step: Step)
    ensures
        res != POSIX_FAILED <==> step == Step::Acquired,
{
    if res != POSIX_FAILED {
        Step::Acquired
    } else {
        timed_wait_verdict(res, last_error_class())
    }
}

/// Whether a POSIX call that creates, posts or destroys reported success.
pub fn succeeded(res: i32) -> (ok: bool)
    ensures
        ok == (res == 0),
{
    res == 0
}

/// The verdict on `WaitForSingleObject`, from its return value. `bounded`
/// says whether the wait was given a timeout other than [`INFINITE`].
#[verifier::when_used_as_spec(spec_wait_object_verdict)]
pub fn wait_object_verdict(result: u32, bounded: bool) -> (step: Step)
    ensures
        step == spec_wait_object_verdict(result, bounded),
{
    if result == WAIT_OBJECT_0 {
        Step::Acquired
    } else if result == WAIT_TIMEOUT && bounded {
        Step::Missed
    } else {
        Step::Fatal
    }
}

/// The verdict on `semaphore_wait` or `semaphore_timedwait`, from its return
/// value. `bounded` says which of the two it was.
#[verifier::when_used_as_spec(spec_kern_verdict)]
pub fn kern_verdict(result: i32, bounded: bool) -> (step: Step)
    ensures
        step == spec_kern_verdict(result, bounded),
{
    if result == KERN_SUCCESS {
        Step::Acquired
    } else if result == KERN_OPERATION_TIMED_OUT && bounded {
        Step::Missed
    } else {
        Step::Fatal
    }
}

/// The verdict on one attempt of a wait that polls against a deadline. It is
/// never `Fatal`: an attempt in memory has nothing unexpected to report.
#[verifier::when_used_as_spec(spec_poll_verdict)]
pub fn poll_verdict(acquired: bool, now: TimeSpec, deadline: TimeSpec) -> (step: Step)
    ensures
        step == spec_poll_verdict(acquired, now, deadline),
        step != Step::Fatal,
{
    if acquired {
        Step::Acquired
    } else if now.reached(deadline) {
        Step::Missed
    } else {
        Step::Retry
    }
}

/// An interruption is never an answer: whatever the call, an interrupted
/// POSIX wait is made again, and neither `true` nor `false` is returned for
/// it.
pub proof fn law_interruption_is_retried(class: ErrorClass)
    requires
        class == ErrorClass::Interrupted,
    ensures
        spec_wait_verdict(POSIX_FAILED, class) == Step::Retry,
        spec_try_wait_verdict(POSIX_FAILED, class) == Step::Retry,
        spec_timed_wait_verdict(POSIX_FAILED, class) == Step::Retry,
{
}

/// A blocking wait has no "no": it ends with the count taken, or not at all.
pub proof fn law_wait_never_misses(res: i32, class: ErrorClass, object: u32, kern: i32)
    ensures
        spec_wait_verdict(res, class) != Step::Missed,
        spec_wait_object_verdict(object, false) != Step::Missed,
        spec_kern_verdict(kern, false) != Step::Missed,
{
}

} // verus!
