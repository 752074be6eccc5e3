//! The initialisation protocol of a semaphore that starts life without a
//! resource behind it.
//!
//! A value is `Uninit` until some caller claims the right to create the
//! resource, `Initing` while that one caller is at work, and `Inited` once the
//! resource is published. Closing takes it back to `Uninit`. Each arrow of the
//! protocol is taken by at most one caller, because each is one atomic update
//! of a single byte.

use vstd::prelude::*;

verus! {

/// Where a lazily initialised semaphore stands.
#[derive(Clone, Copy, PartialEq, Eq, Debug, Structural)]
pub enum InitState {
    /// No resource exists.
    Uninit,
    /// One caller is creating the resource; everyone else keeps away.
    Initing,
    /// The resource exists and may be used by any thread.
    Inited,
}

/// What a caller asks of the protocol.
#[derive(Clone, Copy, PartialEq, Eq, Debug, Structural)]
pub enum Event {
    /// Claim the right to create the resource.
    Init,
    /// The resource was created: publish it.
    Created,
    /// The resource could not be created: give the claim back.
    CreateFailed,
    /// Claim the duty to destroy the resource.
    Close,
}

/// The byte that stands for `Uninit`; a zeroed value is uninitialised.
pub const UNINIT: u8 = 0;

/// The byte that stands for `Initing`.
pub const INITING: u8 = 1;

/// The byte that stands for `Inited`.
pub const INITED: u8 = 2;

impl InitState {
    /// The byte under which this state is stored.
    pub open spec fn spec_raw(self) -> u8 {
        match self {
            InitState::Uninit => UNINIT,
            InitState::Initing => INITING,
            InitState::Inited => INITED,
        }
    }

    /// The state that a stored byte stands for, if any.
    pub open spec fn spec_from_raw(raw: u8) -> Option<InitState> {
        if raw == UNINIT {
            Some(InitState::Uninit)
        } else if raw == INITING {
            Some(InitState::Initing)
        } else if raw == INITED {
            Some(InitState::Inited)
        } else {
            None
        }
    }

    /// The state that follows when `event` is taken in this state, or `None`
    /// when the event finds nothing to do here.
    ///
    /// | from      | event          | to        |
    /// |-----------|----------------|-----------|
    /// | `Uninit`  | `Init`         | `Initing` |
    /// | `Initing` | `Created`      | `Inited`  |
    /// | `Initing` | `CreateFailed` | `Uninit`  |
    /// | `Inited`  | `Close`        | `Uninit`  |
    pub open spec fn spec_step(self, event: Event) -> Option<InitState> {
        match (self, event) {
            (InitState::Uninit, Event::Init) => Some(InitState::Initing),
            (InitState::Initing, Event::Created) => Some(InitState::Inited),
            (InitState::Initing, Event::CreateFailed) => Some(InitState::Uninit),
            (InitState::Inited, Event::Close) => Some(InitState::Uninit),
            _ => None,
        }
    }

    /// The byte under which this state is stored.
    #[verifier::when_used_as_spec(spec_raw)]
    pub fn raw(self) -> (raw: u8)
        ensures
            raw == self.spec_raw(),
    {
        match self {
            InitState::Uninit => UNINIT,
            InitState::Initing => INITING,
            InitState::Inited => INITED,
        }
    }

    /// Reads a stored byte back; `None` for a byte that no state is stored
    /// under.
    #[verifier::when_used_as_spec(spec_from_raw)]
    pub fn from_raw(raw: u8) -> (state: Option<InitState>)
        ensures
            state == InitState::spec_from_raw(raw),
    {
        if raw == UNINIT {
            Some(InitState::Uninit)
        } else if raw == INITING {
            Some(InitState::Initing)
        } else if raw == INITED {
            Some(InitState::Inited)
        } else {
            None
        }
    }

    /// Takes `event` in this state: the next state, or `None` when the event
    /// does not apply and the state stays as it is.
    #[verifier::when_used_as_spec(spec_step)]
    pub fn step(self, event: Event) -> (next: Option<InitState>)
        ensures
            next == self.spec_step(event),
    {
        match (self, event) {
            (InitState::Uninit, Event::Init) => Some(InitState::Initing),
            (InitState::Initing, Event::Created) => Some(InitState::Inited),
            (InitState::Initing, Event::CreateFailed) => Some(InitState::Uninit),
            (InitState::Inited, Event::Close) => Some(InitState::Uninit),
            _ => None,
        }
    }
}

/// What `step` does, told over stored bytes: the byte to store next, or
/// `None` when the byte is to stay. A byte that no state is stored under never
/// changes.
pub open spec fn spec_step_raw(raw: u8, event: Event) -> Option<u8> {
    match InitState::spec_from_raw(raw) {
        Some(state) => match state.spec_step(event) {
            Some(next) => Some(next.spec_raw()),
            None => None,
        },
        None => None,
    }
}

/// Takes `event` on a stored byte. This is the function that every update of
/// the shared state byte applies.
#[verifier::when_used_as_spec(spec_step_raw)]
pub fn step_raw(raw: u8, event: Event) -> (next: Option<u8>)
    ensures
        next == spec_step_raw(raw, event),
{
    match InitState::from_raw(raw) {
        Some(state) => match state.step(event) {
            Some(next) => Some(next.raw()),
            None => None,
        },
        None => None,
    }
}

/// Storing a state and reading it back gives the same state, so no two
/// states share a byte.
pub proof fn law_raw_round_trip(state: InitState)
    ensures
        InitState::spec_from_raw(state.spec_raw()) == Some(state),
{
}

/// A byte that reads back as a state is the byte that state is stored under.
pub proof fn law_from_raw_is_inverse(raw: u8)
    ensures
        InitState::spec_from_raw(raw) matches Some(state) ==> state.spec_raw() == raw,
{
}

/// Only `Init` leaves `Uninit`, only the creator's two reports leave
/// `Initing`, and only `Close` leaves `Inited`: a state never has two callers
/// at work on it.
pub proof fn law_step_is_exclusive(state: InitState, event: Event)
    ensures
        state.spec_step(event) is Some <==> match state {
            InitState::Uninit => event == Event::Init,
            InitState::Initing => event == Event::Created || event == Event::CreateFailed,
            InitState::Inited => event == Event::Close,
        },
        state.spec_step(event) == Some(InitState::Initing) <==> (state == InitState::Uninit
            && event == Event::Init),
        state.spec_step(event) == Some(InitState::Inited) <==> (state == InitState::Initing
            && event == Event::Created),
{
}

/// A claim is granted once: the state that follows a claim to create refuses
/// the next claim to create, and the state that follows a claim to destroy
/// refuses the next claim to destroy.
pub proof fn law_claims_are_granted_once(state: InitState)
    ensures
        state.spec_step(Event::Init) matches Some(claimed) ==> claimed.spec_step(Event::Init)
            is None,
        state.spec_step(Event::Close) matches Some(closed) ==> closed.spec_step(Event::Close)
            is None,
{
}

} // verus!
