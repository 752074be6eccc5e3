//! The arithmetic of the count: what a wait and a signal do to the number that
//! a semaphore holds.
//!
//! The count never goes below zero and never above [`MAX_COUNT`]. An operation
//! that would leave that range does not happen at all, and says so.

use vstd::prelude::*;

verus! {

/// The largest count a semaphore can hold.
pub const MAX_COUNT: u32 = 0xFFFF_FFFF;

/// One of the two things that can happen to a count.
#[derive(Clone, Copy, PartialEq, Eq, Debug, Structural)]
pub enum CountOp {
    /// A wait: take one unit, if there is one.
    Take,
    /// A signal: give one unit back, if there is room.
    Give,
}

/// The count after one unit is taken, or `None` at zero.
pub open spec fn spec_take(count: u32) -> Option<u32> {
    if count > 0 {
        Some((count - 1) as u32)
    } else {
        None
    }
}

/// The count after one unit is given, or `None` at the maximum.
pub open spec fn spec_give(count: u32) -> Option<u32> {
    if count < MAX_COUNT {
        Some((count + 1) as u32)
    } else {
        None
    }
}

impl CountOp {
    /// The count that this operation leaves, or `None` when it cannot happen.
    pub open spec fn spec_apply(self, count: u32) -> Option<u32> {
        match self {
            CountOp::Take => spec_take(count),
            CountOp::Give => spec_give(count),
        }
    }

    /// Applies this operation to `count`. This is the function that every
    /// update of the shared count applies.
    #[verifier::when_used_as_spec(spec_apply)]
    pub fn apply(self, count: u32) -> (next: Option<u32>)
        ensures
            next == self.spec_apply(count),
        no_unwind
    {
        match self {
            CountOp::Take => take(count),
            CountOp::Give => give(count),
        }
    }
}

/// Takes one unit from `count`: the count that is left, or `None` when there
/// is nothing to take.
#[verifier::when_used_as_spec(spec_take)]
pub fn take(count: u32) -> (left: Option<u32>)
    ensures
        left == spec_take(count),
    no_unwind
{
    if count > 0 {
        Some(count - 1)
    } else {
        None
    }
}

/// Gives one unit to `count`: the new count, or `None` when the count is
/// already at [`MAX_COUNT`].
#[verifier::when_used_as_spec(spec_give)]
pub fn give(count: u32) -> (raised: Option<u32>)
    ensures
        raised == spec_give(count),
    no_unwind
{
    if count < MAX_COUNT {
        Some(count + 1)
    } else {
        None
    }
}

/// A unit that was given can be taken again, and the count is back where it
/// was.
pub proof fn law_give_then_take(count: u32)
    requires
        count < MAX_COUNT,
    ensures
        spec_give(count) matches Some(raised) && spec_take(raised) == Some(count),
{
}

/// A unit that was taken can be given back, and the count is back where it
/// was.
pub proof fn law_take_then_give(count: u32)
    requires
        count > 0,
    ensures
        spec_take(count) matches Some(left) && spec_give(left) == Some(count),
{
}

} // verus!
