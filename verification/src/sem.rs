//! A counting semaphore that lives entirely in memory.
//!
//! The count is one shared integer and the initialisation state one shared
//! byte. A wait is an atomic decrement that refuses to go below zero, a
//! signal an atomic increment. No operation here suspends the calling thread:
//! [`Sem::try_wait`] makes one attempt, [`Sem::spin_wait`] a bounded number.
//! A caller that wants to wait without bound repeats one of them.
//!
//! Another thread may change the count between any two calls, so the
//! contracts below cannot speak of the count. What each operation does to it
//! is [`CountOp::apply`], applied atomically; what that means for a thread
//! that is left alone is proved in [`crate::model`].

use vstd::prelude::*;
use std::sync::atomic::{AtomicU32, Ordering};
use crate::cell::InitCell;
use crate::count::CountOp;
use crate::state::InitState;

verus! {

/// How often `init` looks at the state while another caller is creating the
/// resource, before it returns.
pub const INIT_SPINS: u32 = 0xFFFF_FFFF;

/// A counting semaphore.
pub struct Sem {
    cell: InitCell,
    count: AtomicU32,
}

/// Holds one unit of a semaphore and gives it back when dropped.
pub struct Guard<'a> {
    sem: &'a Sem,
}

impl Sem {
    /// A semaphore without a resource. Call [`init`](Sem::init) before any
    /// wait or signal.
    pub fn new_uninit() -> Sem {
        Sem { cell: InitCell::new(InitState::Uninit), count: AtomicU32::new(0) }
    }

    /// A semaphore with a count of `initial`. A semaphore in memory needs
    /// nothing from the platform, so this always succeeds.
    pub fn new(initial: u32) -> (sem: Option<Sem>)
        ensures
            sem is Some,
    {
        Some(Sem { cell: InitCell::new(InitState::Inited), count: AtomicU32::new(initial) })
    }

    /// A semaphore that starts with one unit, to be used as a lock.
    pub fn new_binary() -> (sem: Option<Sem>)
        ensures
            sem is Some,
    {
        Sem::new(1)
    }

    /// Whether the semaphore is found initialised. Never blocks.
    pub fn is_init(&self) -> bool {
        self.cell.is_init()
    }

    /// Initialises the semaphore with a count of `initial`.
    ///
    /// Returns `true` to the one caller that found the semaphore
    /// uninitialised and set it up. Every other caller gets `false`, after
    /// waiting for a set-up that is under way to finish.
    pub fn init(&self, initial: u32) -> (created: bool) {
        if self.cell.begin_init() {
            self.count.store(initial, Ordering::SeqCst);
            self.cell.end_init(true)
        } else {
            let _settled = self.cell.await_init(INIT_SPINS);
            false
        }
    }

    /// Takes the semaphore back to uninitialised. Only the caller that finds
    /// it initialised does anything, so closing twice is harmless. The caller
    /// sees to it that no wait or signal is under way.
    pub fn close(&self) {
        if self.cell.begin_close() {
            self.count.store(0, Ordering::SeqCst);
        }
    }

    /// Tries to take one unit without waiting. `true` if the count was above
    /// zero at the instant of the attempt, and is now one lower.
    pub fn try_wait(&self) -> (acquired: bool) {
        update_count(&self.count, CountOp::Take).is_ok()
    }

    /// Tries to take one unit, making at most `attempts` attempts with a spin
    /// hint in between. `true` as soon as one attempt succeeds.
    pub fn spin_wait(&self, attempts: u32) -> (acquired: bool)
        ensures
            attempts == 0 ==> !acquired,
    {
        let mut made: u32 = 0;
        while made < attempts
            invariant
                made <= attempts,
            decreases attempts - made,
        {
            if self.try_wait() {
                return true;
            }
            std::hint::spin_loop();
            made = made + 1;
        }
        false
    }

    /// Gives one unit back. Never blocks. At the maximum count the signal is
    /// dropped.
    pub fn signal(&self)
        opens_invariants none
        no_unwind
    {
        let _seen = update_count(&self.count, CountOp::Give);
    }

    /// Tries to take one unit without waiting, and wraps it in a guard that
    /// gives it back when dropped.
    pub fn try_lock(&self) -> (guard: Option<Guard<'_>>)
        ensures
            guard matches Some(held) ==> held.semaphore() == self,
    {
        if self.try_wait() {
            Some(Guard::new(self))
        } else {
            None
        }
    }

    /// Like [`try_lock`](Sem::try_lock), with at most `attempts` attempts.
    pub fn spin_lock(&self, attempts: u32) -> (guard: Option<Guard<'_>>)
        ensures
            attempts == 0 ==> guard is None,
            guard matches Some(held) ==> held.semaphore() == self,
    {
        if self.spin_wait(attempts) {
            Some(Guard::new(self))
        } else {
            None
        }
    }
}

impl<'a> Guard<'a> {
    /// The semaphore that gets the unit back when this guard is dropped.
    pub closed spec fn semaphore(self) -> &'a Sem {
        self.sem
    }

    /// A guard for a unit of `sem` that the caller has already taken.
    pub fn new(sem: &'a Sem) -> (guard: Guard<'a>)
        ensures
            guard.semaphore() == sem,
    {
        Guard { sem }
    }
}

impl<'a> Drop for Guard<'a> {
    /// Gives the unit back: one signal, once.
    fn drop(&mut self)
        opens_invariants none
        no_unwind
    {
        self.sem.signal();
    }
}

/// `AtomicU32::fetch_update` with `op` as the function to apply. The standard
/// library documents that the count is replaced by what the function returns
/// for the count that was there, atomically, that `Ok(previous)` comes back if
/// the function returned `Some`, and `Err(previous)`, with the count
/// unchanged, if it returned `None`. The call does not unwind, because
/// applying `op` does not.
#[verifier::external_body]
fn update_count(count: &AtomicU32, op: CountOp) -> (seen: Result<u32, u32>)
    ensures
        seen matches Ok(before) ==> op.spec_apply(before) is Some,
        seen matches Err(before) ==> op.spec_apply(before) is None,
    opens_invariants none
    no_unwind
{
    count.fetch_update(Ordering::SeqCst, Ordering::SeqCst, |before| op.apply(before))
}

} // verus!
