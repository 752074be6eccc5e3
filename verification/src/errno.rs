//! Sorting operating-system error codes into the few classes that a
//! semaphore cares about.
//!
//! The numbers themselves belong to the platform. They are read from `libc`,
//! and nothing here depends on what they are: [`Codes::classify`] is proved
//! for every table of codes. Of the platform's own table only this is taken
//! on trust, that the three classes have numbers of their own.

use vstd::prelude::*;

verus! {

/// What an error code means to a wait.
#[derive(Clone, Copy, PartialEq, Eq, Debug, Structural)]
pub enum ErrorClass {
    /// The count was zero and the call would not block.
    WouldBlock,
    /// A signal handler ran and cut the call short; nothing was decided.
    Interrupted,
    /// The deadline went by.
    TimedOut,
    /// Anything else. No wait expects it.
    Other,
}

/// The error codes that a platform uses for the three expected classes.
#[derive(Clone, Copy, PartialEq, Eq, Debug, Structural)]
pub struct Codes {
    /// The code for an interrupted call.
    pub interrupted: i32,
    /// The code for "try again".
    pub again: i32,
    /// The code for "would block"; on many platforms the same as `again`.
    pub would_block: i32,
    /// The code for a deadline that went by.
    pub timed_out: i32,
}

impl Codes {
    /// The class of `code` under this table. Where a platform gives two
    /// classes the same number, would-block is looked for first, then
    /// timed-out, then interrupted.
    pub open spec fn spec_classify(self, code: i32) -> ErrorClass {
        if code == self.again || code == self.would_block {
            ErrorClass::WouldBlock
        } else if code == self.timed_out {
            ErrorClass::TimedOut
        } else if code == self.interrupted {
            ErrorClass::Interrupted
        } else {
            ErrorClass::Other
        }
    }

    /// Sorts `code` into its class.
    #[verifier::when_used_as_spec(spec_classify)]
    pub fn classify(self, code: i32) -> (class: ErrorClass)
        ensures
            class == self.spec_classify(code),
    {
        if code == self.again || code == self.would_block {
            ErrorClass::WouldBlock
        } else if code == self.timed_out {
            ErrorClass::TimedOut
        } else if code == self.interrupted {
            ErrorClass::Interrupted
        } else {
            ErrorClass::Other
        }
    }

    /// Whether the three classes have numbers of their own: the code for an
    /// interrupted call and the code for a deadline that went by differ from
    /// each other and from both codes for a call that would block. Those two
    /// may be one number.
    pub open spec fn distinct(self) -> bool {
        &&& self.interrupted != self.again
        &&& self.interrupted != self.would_block
        &&& self.interrupted != self.timed_out
        &&& self.timed_out != self.again
        &&& self.timed_out != self.would_block
    }

    /// The table of the platform that this crate was built for. What the
    /// numbers are depends on the platform; on every platform the three
    /// classes have numbers of their own, so each of the table's codes is
    /// sorted into the class it is named for.
    pub fn native() -> (codes: Codes)
        ensures
            codes.distinct(),
            codes.spec_classify(codes.interrupted) == ErrorClass::Interrupted,
            codes.spec_classify(codes.timed_out) == ErrorClass::TimedOut,
            codes.spec_classify(codes.again) == ErrorClass::WouldBlock,
            codes.spec_classify(codes.would_block) == ErrorClass::WouldBlock,
    {
        platform_codes()
    }
}

/// In a table whose classes have numbers of their own, each code is sorted
/// into the class it is named for, and no code into two.
pub proof fn law_distinct_codes_keep_their_class(codes: Codes, code: i32)
    requires
        codes.distinct(),
    ensures
        codes.spec_classify(code) == ErrorClass::Interrupted <==> code == codes.interrupted,
        codes.spec_classify(code) == ErrorClass::TimedOut <==> code == codes.timed_out,
        codes.spec_classify(code) == ErrorClass::WouldBlock <==> code == codes.again || code
            == codes.would_block,
{
}

/// The error code that the last failed system call left for the calling
/// thread. It is meaningful only straight after a call that reported failure.
pub fn last_error() -> (code: i32) {
    last_posix_code()
}

/// The class of the error that the last failed system call left for the
/// calling thread, under the platform's own table. Any class may come back:
/// what is proved is how [`Codes::classify`] sorts the code once it is read.
pub fn last_error_class() -> (class: ErrorClass) {
    let codes = Codes::native();
    let code = last_error();
    codes.classify(code)
}

/// `libc::EINTR`, `libc::EAGAIN`, `libc::EWOULDBLOCK` and `libc::ETIMEDOUT`,
/// the platform's codes, put into a table. The values differ between
/// platforms. What is claimed is that no platform gives one number to two of
/// the three classes: in `libc`'s source no value of `EINTR` is a value of
/// `EAGAIN`, `EWOULDBLOCK` or `ETIMEDOUT` on any target, and no value of
/// `ETIMEDOUT` is a value of `EAGAIN` or `EWOULDBLOCK`.
#[verifier::external_body]
fn platform_codes() -> (codes: Codes)
    ensures
        codes.distinct(),
{
    Codes {
        interrupted: libc::EINTR,
        again: libc::EAGAIN,
        would_block: libc::EWOULDBLOCK,
        timed_out: libc::ETIMEDOUT,
    }
}

/// `error_code::ErrorCode::last_posix` followed by `raw_code`: the calling
/// thread's `errno` as a number. It is whatever the last system call left
/// there, so nothing is claimed of it.
#[verifier::external_body]
fn last_posix_code() -> i32 {
    error_code::ErrorCode::last_posix().raw_code()
}

} // verus!
