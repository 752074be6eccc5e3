//! What one thread sees of a semaphore that no other thread touches.
//!
//! [`Model`] is the semaphore as a plain value: the initialisation state and
//! the count. Each operation is a function from one such value to the next,
//! built from the same two step functions that the shared implementation
//! applies atomically. It can be run, as a reference to hold an
//! implementation against, and the laws at the end of this file are proved
//! about it.

use vstd::prelude::*;
use crate::count::{give, spec_give, spec_take, take};
use crate::state::{Event, InitState};

verus! {

/// The logical value of a semaphore.
#[derive(Clone, Copy, PartialEq, Eq, Debug, Structural)]
pub struct Model {
    /// Whether a resource stands behind the semaphore.
    pub state: InitState,
    /// How many waits can succeed before the next signal.
    pub count: u32,
}

impl Model {
    /// A semaphore that has never been initialised.
    pub open spec fn spec_uninit() -> Model {
        Model { state: InitState::Uninit, count: 0 }
    }

    /// Whether the resource exists.
    pub open spec fn spec_is_init(self) -> bool {
        self.state == InitState::Inited
    }

    /// What a value looks like between two calls of a lone thread: nobody is
    /// in the middle of creating the resource, and without a resource there is
    /// no count.
    pub open spec fn settled(self) -> bool {
        &&& self.state != InitState::Initing
        &&& (self.state == InitState::Uninit ==> self.count == 0)
    }

    /// `init(initial)`: the value afterwards and what the call returns.
    /// `granted` says whether the platform grants the resource; it is asked
    /// only by the caller that won the claim.
    pub open spec fn spec_init(self, initial: u32, granted: bool) -> (Model, bool) {
        match self.state.spec_step(Event::Init) {
            Some(claimed) => {
                let report = if granted {
                    Event::Created
                } else {
                    Event::CreateFailed
                };
                match claimed.spec_step(report) {
                    Some(next) => (
                        Model {
                            state: next,
                            count: if granted {
                                initial
                            } else {
                                0
                            },
                        },
                        granted,
                    ),
                    None => (self, false),
                }
            },
            None => (self, false),
        }
    }

    /// `new(initial)` on a platform that grants the resource.
    pub open spec fn spec_new(initial: u32) -> Model {
        Model::spec_uninit().spec_init(initial, true).0
    }

    /// `close()`: the value afterwards.
    pub open spec fn spec_close(self) -> Model {
        match self.state.spec_step(Event::Close) {
            Some(next) => Model { state: next, count: 0 },
            None => self,
        }
    }

    /// `try_wait()`: the value afterwards and what the call returns.
    pub open spec fn spec_try_wait(self) -> (Model, bool)
        recommends
            self.spec_is_init(),
    {
        match spec_take(self.count) {
            Some(left) => (Model { state: self.state, count: left }, true),
            None => (self, false),
        }
    }

    /// `signal()`: the value afterwards. Dropping a guard is a signal.
    pub open spec fn spec_signal(self) -> Model
        recommends
            self.spec_is_init(),
    {
        match spec_give(self.count) {
            Some(raised) => Model { state: self.state, count: raised },
            None => self,
        }
    }

    /// The value after `calls` calls of `try_wait()` in a row.
    pub open spec fn drained(self, calls: nat) -> Model
        decreases calls,
    {
        if calls == 0 {
            self
        } else {
            self.spec_try_wait().0.drained((calls - 1) as nat)
        }
    }

    /// A semaphore that has never been initialised.
    #[verifier::when_used_as_spec(spec_uninit)]
    pub fn uninit() -> (model: Model)
        ensures
            model == Model::spec_uninit(),
    {
        Model { state: InitState::Uninit, count: 0 }
    }

    /// A semaphore with a count of `initial`, on a platform that grants the
    /// resource.
    #[verifier::when_used_as_spec(spec_new)]
    pub fn new(initial: u32) -> (model: Model)
        ensures
            model == Model::spec_new(initial),
            model == (Model { state: InitState::Inited, count: initial }),
    {
        Model::uninit().init(initial, true).0
    }

    /// Whether the resource exists.
    #[verifier::when_used_as_spec(spec_is_init)]
    pub fn is_init(self) -> (inited: bool)
        ensures
            inited == self.spec_is_init(),
    {
        match self.state {
            InitState::Inited => true,
            _ => false,
        }
    }

    /// What `init(initial)` does when no other thread interferes: the value
    /// afterwards and what the call returns. It returns `true` exactly when
    /// the value was uninitialised and the platform granted the resource.
    #[verifier::when_used_as_spec(spec_init)]
    pub fn init(self, initial: u32, granted: bool) -> (after: (Model, bool))
        ensures
            after == self.spec_init(initial, granted),
            after.1 <==> self.state == InitState::Uninit && granted,
    {
        match self.state.step(Event::Init) {
            Some(claimed) => {
                let report = if granted {
                    Event::Created
                } else {
                    Event::CreateFailed
                };
                match claimed.step(report) {
                    Some(next) => (
                        Model {
                            state: next,
                            count: if granted {
                                initial
                            } else {
                                0
                            },
                        },
                        granted,
                    ),
                    None => (self, false),
                }
            },
            None => (self, false),
        }
    }

    /// What `close()` does: the value afterwards.
    #[verifier::when_used_as_spec(spec_close)]
    pub fn close(self) -> (after: Model)
        ensures
            after == self.spec_close(),
    {
        match self.state.step(Event::Close) {
            Some(next) => Model { state: next, count: 0 },
            None => self,
        }
    }

    /// What `try_wait()` does when no other thread interferes: the value
    /// afterwards and what the call returns. It returns `true` exactly when
    /// the count was above zero.
    #[verifier::when_used_as_spec(spec_try_wait)]
    pub fn try_wait(self) -> (after: (Model, bool))
        requires
            self.spec_is_init(),
        ensures
            after == self.spec_try_wait(),
            after.1 <==> self.count > 0,
    {
        match take(self.count) {
            Some(left) => (Model { state: self.state, count: left }, true),
            None => (self, false),
        }
    }

    /// What `signal()` does when no other thread interferes: the value
    /// afterwards.
    #[verifier::when_used_as_spec(spec_signal)]
    pub fn signal(self) -> (after: Model)
        requires
            self.spec_is_init(),
        ensures
            after == self.spec_signal(),
    {
        match give(self.count) {
            Some(raised) => Model { state: self.state, count: raised },
            None => self,
        }
    }
}

/// Draining a count step by step: after `calls` calls of `try_wait()`, none
/// of which found the count at zero, the count is lower by `calls` and
/// nothing else has changed.
pub proof fn lemma_drained(model: Model, calls: nat)
    requires
        calls <= model.count,
    ensures
        model.drained(calls) == (Model { state: model.state, count: (model.count - calls) as u32 }),
    decreases calls,
{
    if calls > 0 {
        lemma_drained(model.try_wait().0, (calls - 1) as nat);
    }
}

/// A semaphore created with a count of `initial` lets exactly `initial` calls
/// of `try_wait()` through: each of the first `initial` calls returns `true`,
/// and the call after them returns `false`.
pub proof fn law_initial_count_is_spent_exactly(initial: u32)
    ensures
        forall|earlier: nat|
            earlier < initial ==> (#[trigger] Model::new(initial).drained(earlier)).try_wait().1,
        !Model::new(initial).drained(initial as nat).try_wait().1,
{
    let fresh = Model::new(initial);
    assert(fresh == Model { state: InitState::Inited, count: initial });
    assert forall|earlier: nat| earlier < initial implies (#[trigger] fresh.drained(
        earlier,
    )).try_wait().1 by {
        lemma_drained(fresh, earlier);
    }
    lemma_drained(fresh, initial as nat);
}

/// Of two calls of `init` on a value that was never initialised, the first
/// returns `true` and the second returns `false`, whatever count it asks for
/// and whether or not the platform would have granted a resource. The second
/// call changes nothing: the semaphore is initialised, with the count of the
/// first call.
pub proof fn law_second_init_fails(first: u32, second: u32, granted: bool)
    ensures
        Model::uninit().init(first, true).1,
        Model::uninit().init(first, true).0 == (Model { state: InitState::Inited, count: first }),
        !Model::uninit().init(first, true).0.init(second, granted).1,
        Model::uninit().init(first, true).0.init(second, granted).0 == Model::uninit().init(
            first,
            true,
        ).0,
{
}

/// An `init` that the platform refuses returns `false` and leaves the value
/// uninitialised, so that a later `init` may try again.
pub proof fn law_failed_init_may_be_retried(model: Model, refused: u32, initial: u32)
    requires
        model.state == InitState::Uninit,
    ensures
        !model.init(refused, false).1,
        model.init(refused, false).0 == Model::uninit(),
        model.init(refused, false).0.init(initial, true) == (
            Model { state: InitState::Inited, count: initial },
            true,
        ),
{
}

/// Closing twice is the same as closing once, in whatever state the first
/// `close` finds the semaphore.
pub proof fn law_close_is_idempotent(model: Model)
    ensures
        model.close().close() == model.close(),
        !model.close().is_init(),
{
}

/// After `close`, `init` succeeds again, and the count is the one that this
/// `init` was given: nothing of the earlier count is left. This holds of
/// every value that no caller is in the middle of initialising.
pub proof fn law_init_after_close(model: Model, initial: u32)
    requires
        model.state != InitState::Initing,
    ensures
        model.close().close().init(initial, true) == (
            Model { state: InitState::Inited, count: initial },
            true,
        ),
        model.close().init(initial, true) == (
            Model { state: InitState::Inited, count: initial },
            true,
        ),
{
}

/// No operation of a lone thread leaves the semaphore half initialised.
pub proof fn law_operations_keep_settled(model: Model, initial: u32, granted: bool)
    requires
        model.settled(),
    ensures
        model.init(initial, granted).0.settled(),
        model.close().settled(),
        model.is_init() ==> model.try_wait().0.settled() && model.signal().settled(),
{
}

/// A guard gives back what it took: a `try_wait()` that succeeded, followed
/// by the signal of the guard's drop, leaves the value as it was.
pub proof fn law_guard_restores_count(model: Model)
    requires
        model.is_init(),
        model.try_wait().1,
    ensures
        model.try_wait().0.signal() == model,
{
}

/// A signal is what a later `try_wait()` consumes: below the maximum count,
/// `signal()` followed by `try_wait()` succeeds and restores the value.
pub proof fn law_signal_then_try_wait(model: Model)
    requires
        model.is_init(),
        model.count < crate::count::MAX_COUNT,
    ensures
        model.signal().try_wait() == (model, true),
{
}

} // verus!
