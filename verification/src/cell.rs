//! The shared byte that carries the initialisation state.
//!
//! Every change of the byte is one atomic application of
//! [`step_raw`](crate::state::step_raw): a caller names an event, and the
//! event is taken if and only if the state at that instant allows it. Two
//! callers that name the same event can therefore not both have it taken on
//! the same state, which is all that initialising once and destroying once
//! needs.
//!
//! What other threads do to the byte between two calls is not known to the
//! verifier, so the contracts below speak of the state a call *found*, never
//! of the state the cell is in.

use vstd::prelude::*;
use std::sync::atomic::{AtomicU8, Ordering};
use crate::state::{spec_step_raw, step_raw, Event, InitState, INITED, INITING};

verus! {

/// The initialisation state of a semaphore, shared between threads.
pub struct InitCell {
    state: AtomicU8,
}

impl InitCell {
    /// A cell that starts in `state`.
    pub fn new(state: InitState) -> InitCell {
        InitCell { state: AtomicU8::new(state.raw()) }
    }

    /// The state the cell is found in, or `None` if the byte is none that a
    /// state is stored under.
    pub fn load(&self) -> Option<InitState> {
        InitState::from_raw(self.state.load(Ordering::Acquire))
    }

    /// Whether the cell is found in `Inited`. Never blocks.
    pub fn is_init(&self) -> bool {
        self.state.load(Ordering::Acquire) == INITED
    }

    /// Takes `event` if the state allows it, in one atomic step.
    ///
    /// `Ok(from)` says that the event was taken on state `from`, and the cell
    /// went to the state that follows. `Err(found)` says that the cell was
    /// found in a state that does not allow the event, and was left as it
    /// was.
    pub fn apply(&self, event: Event) -> (seen: Result<InitState, Option<InitState>>)
        ensures
            seen matches Ok(from) ==> from.spec_step(event) is Some,
            seen matches Err(Some(found)) ==> found.spec_step(event) is None,
    {
        match update_state(&self.state, event) {
            Ok(raw) => match InitState::from_raw(raw) {
                Some(from) => Ok(from),
                None => Err(None),
            },
            Err(raw) => Err(InitState::from_raw(raw)),
        }
    }

    /// Claims the right to create the resource. `true` goes to exactly one
    /// caller per initialisation: the one that found the cell `Uninit` and
    /// moved it to `Initing`. That caller creates the resource and reports
    /// with [`end_init`](InitCell::end_init).
    pub fn begin_init(&self) -> (won: bool) {
        self.apply(Event::Init).is_ok()
    }

    /// Reports how the creation went, by the caller that won
    /// [`begin_init`](InitCell::begin_init). After a creation that succeeded
    /// the cell goes to `Inited`; after one that failed it goes back to
    /// `Uninit`. Returns what `init` returns: `true` only if the resource was
    /// created and published.
    pub fn end_init(&self, created: bool) -> (published: bool)
        ensures
            published ==> created,
    {
        if created {
            self.apply(Event::Created).is_ok()
        } else {
            let _given_back = self.apply(Event::CreateFailed);
            false
        }
    }

    /// Claims the duty to destroy the resource. `true` goes to exactly one
    /// caller per initialisation: the one that found the cell `Inited` and
    /// moved it to `Uninit`. Everyone else has nothing to do.
    pub fn begin_close(&self) -> (destroy: bool) {
        self.apply(Event::Close).is_ok()
    }

    /// Waits for a creation that another caller has begun, looking at the
    /// cell at most `spins` times with a spin hint in between. Returns `true`
    /// as soon as the cell is found in a state other than `Initing`, and
    /// `false` if it was `Initing` every time.
    pub fn await_init(&self, spins: u32) -> (settled: bool)
        ensures
            spins == 0 ==> !settled,
    {
        let mut looked: u32 = 0;
        while looked < spins
            invariant
                looked <= spins,
            decreases spins - looked,
        {
            if self.state.load(Ordering::Acquire) != INITING {
                return true;
            }
            std::hint::spin_loop();
            looked = looked + 1;
        }
        false
    }
}

/// `std::hint::spin_loop` tells the processor that the caller is spinning.
/// It returns nothing and changes nothing that a program can see.
pub assume_specification[ std::hint::spin_loop ]();

/// `AtomicU8::fetch_update` with `step_raw` for `event` as the function to
/// apply. The standard library documents that the byte is replaced by what
/// the function returns for the byte that was there, atomically, that
/// `Ok(previous)` comes back if the function returned `Some`, and
/// `Err(previous)`, with the byte unchanged, if it returned `None`.
#[verifier::external_body]
fn update_state(cell: &AtomicU8, event: Event) -> (seen: Result<u8, u8>)
    ensures
        seen matches Ok(raw) ==> spec_step_raw(raw, event) is Some,
        seen matches Err(raw) ==> spec_step_raw(raw, event) is None,
{
    cell.fetch_update(Ordering::SeqCst, Ordering::Acquire, |raw| step_raw(raw, event))
}

} // verus!
