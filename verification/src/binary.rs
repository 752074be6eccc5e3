//! A semaphore that is either locked or not: one shared flag, no count.
//!
//! Taking the lock succeeds only on the step from unlocked to locked.
//! Releasing it clears the flag. There is nothing to wait on, so a caller
//! that finds the lock taken spins; this suits critical sections that are
//! over in a few instructions, and nothing else. A wait with a time limit is
//! not offered.

use vstd::prelude::*;
use std::sync::atomic::{AtomicBool, Ordering};

verus! {

/// One of the two things that can happen to the flag.
#[derive(Clone, Copy, PartialEq, Eq, Debug, Structural)]
pub enum FlagOp {
    /// Take the lock, if it is free.
    Lock,
    /// Free the lock.
    Unlock,
}

impl FlagOp {
    /// The flag that this operation leaves, or `None` when it cannot happen.
    /// `true` means locked.
    pub open spec fn spec_apply(self, locked: bool) -> Option<bool> {
        match self {
            FlagOp::Lock => if locked {
                None
            } else {
                Some(true)
            },
            FlagOp::Unlock => Some(false),
        }
    }

    /// Applies this operation to the flag. This is the function that every
    /// update of the shared flag applies.
    #[verifier::when_used_as_spec(spec_apply)]
    pub fn apply(self, locked: bool) -> (next: Option<bool>)
        ensures
            next == self.spec_apply(locked),
        no_unwind
    {
        match self {
            FlagOp::Lock => if locked {
                None
            } else {
                Some(true)
            },
            FlagOp::Unlock => Some(false),
        }
    }
}

/// A binary semaphore in memory.
pub struct Sem {
    locked: AtomicBool,
}

/// Holds the lock of a binary semaphore and frees it when dropped.
pub struct BinaryLock<'a> {
    sem: &'a Sem,
}

impl Sem {
    /// A binary semaphore that starts locked if `locked` is `true`, and free
    /// otherwise.
    pub fn new(locked: bool) -> Sem {
        Sem { locked: AtomicBool::new(locked) }
    }

    /// A binary semaphore that starts free. This always succeeds.
    pub fn new_free() -> (sem: Option<Sem>)
        ensures
            sem is Some,
    {
        Some(Sem::new(false))
    }

    /// Tries to take the lock without waiting. `true` if the lock was free at
    /// the instant of the attempt, and is now taken.
    pub fn try_wait(&self) -> (acquired: bool) {
        update_flag(&self.locked, FlagOp::Lock).is_ok()
    }

    /// Tries to take the lock, making at most `attempts` attempts with a spin
    /// hint in between. `true` as soon as one attempt succeeds.
    pub fn spin_wait(&self, attempts: u32) -> (acquired: bool)
        ensures
            attempts == 0 ==> !acquired,
    {
        let mut made: u32 = 0;
        while made < attempts
            invariant
                made <= attempts,
            decreases attempts - made,
        {
            if self.try_wait() {
                return true;
            }
            std::hint::spin_loop();
            made = made + 1;
        }
        false
    }

    /// Frees the lock. Never blocks.
    pub fn signal(&self)
        opens_invariants none
        no_unwind
    {
        let _seen = update_flag(&self.locked, FlagOp::Unlock);
    }

    /// Tries to take the lock without waiting, and wraps it in a guard that
    /// frees it when dropped.
    pub fn try_lock(&self) -> (guard: Option<BinaryLock<'_>>)
        ensures
            guard matches Some(held) ==> held.semaphore() == self,
    {
        if self.try_wait() {
            Some(BinaryLock::new(self))
        } else {
            None
        }
    }

    /// Like [`try_lock`](Sem::try_lock), with at most `attempts` attempts.
    pub fn spin_lock(&self, attempts: u32) -> (guard: Option<BinaryLock<'_>>)
        ensures
            attempts == 0 ==> guard is None,
            guard matches Some(held) ==> held.semaphore() == self,
    {
        if self.spin_wait(attempts) {
            Some(BinaryLock::new(self))
        } else {
            None
        }
    }
}

impl<'a> BinaryLock<'a> {
    /// The semaphore that is freed when this guard is dropped.
    pub closed spec fn semaphore(self) -> &'a Sem {
        self.sem
    }

    /// A guard for the lock of `sem`, which the caller has already taken.
    pub fn new(sem: &'a Sem) -> (guard: BinaryLock<'a>)
        ensures
            guard.semaphore() == sem,
    {
        BinaryLock { sem }
    }
}

impl<'a> Drop for BinaryLock<'a> {
    /// Frees the lock: one signal, once.
    fn drop(&mut self)
        opens_invariants none
        no_unwind
    {
        self.sem.signal();
    }
}

/// The lock excludes: once it is taken, taking it again fails until it is
/// freed, and a freed lock can be taken.
pub proof fn law_lock_excludes(locked: bool)
    ensures
        FlagOp::Lock.spec_apply(locked) is Some <==> !locked,
        FlagOp::Lock.spec_apply(locked) matches Some(taken) ==> taken && FlagOp::Lock.spec_apply(
            taken,
        ) is None,
        FlagOp::Unlock.spec_apply(locked) matches Some(freed) && FlagOp::Lock.spec_apply(freed)
            == Some(true),
{
}

/// `AtomicBool::fetch_update` with `op` as the function to apply. The
/// standard library documents that the flag is replaced by what the function
/// returns for the flag that was there, atomically, that `Ok(previous)` comes
/// back if the function returned `Some`, and `Err(previous)`, with the flag
/// unchanged, if it returned `None`. The call does not unwind, because
/// applying `op` does not.
#[verifier::external_body]
fn update_flag(flag: &AtomicBool, op: FlagOp) -> (seen: Result<bool, bool>)
    ensures
        seen matches Ok(before) ==> op.spec_apply(before) is Some,
        seen matches Err(before) ==> op.spec_apply(before) is None,
    opens_invariants none
    no_unwind
{
    flag.fetch_update(Ordering::SeqCst, Ordering::SeqCst, |before| op.apply(before))
}

} // verus!
