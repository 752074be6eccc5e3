//! Two callers of `init` at once.
//!
//! Each caller of `init` touches the shared state byte in single atomic
//! steps: it tries to claim the creation; if it wins, it creates the resource
//! and reports; if it loses, it waits until nobody is creating and returns
//! `false`. This file plays every interleaving of two such callers on a
//! semaphore that starts uninitialised, and proves that the resource is
//! created at most once and that at most one of them is told `true`.

use vstd::prelude::*;
use crate::state::{Event, InitState};

verus! {

/// Where one caller of `init` stands.
#[derive(Clone, Copy, PartialEq, Eq, Debug, Structural)]
pub enum Caller {
    /// Has not touched the state yet.
    Start,
    /// Won the claim and is creating the resource.
    Creating,
    /// Lost the claim and waits for a creation under way to end.
    Waiting,
    /// Has returned from `init` with this result.
    Returned(bool),
}

/// One atomic step of the race.
pub struct Move {
    /// Which caller takes the step: the second if `true`, else the first.
    pub second: bool,
    /// Whether the platform grants the resource, should this step ask for
    /// one.
    pub grants: bool,
}

/// Two callers of `init` and the state they share.
pub struct Race {
    /// The shared initialisation state.
    pub cell: InitState,
    /// The first caller.
    pub first: Caller,
    /// The second caller.
    pub second: Caller,
    /// How many resources the platform has handed out so far.
    pub created: nat,
}

/// What one step of `caller` does when it finds the shared state at `cell`:
/// the state it leaves, where the caller stands afterwards, and whether the
/// platform handed out a resource.
pub open spec fn act(cell: InitState, caller: Caller, grants: bool) -> (InitState, Caller, bool) {
    match caller {
        Caller::Start => match cell.spec_step(Event::Init) {
            Some(claimed) => (claimed, Caller::Creating, false),
            None => (cell, Caller::Waiting, false),
        },
        Caller::Creating => {
            let report = if grants {
                Event::Created
            } else {
                Event::CreateFailed
            };
            match cell.spec_step(report) {
                Some(next) => (next, Caller::Returned(grants), grants),
                None => (cell, Caller::Returned(false), grants),
            }
        },
        Caller::Waiting => if cell != InitState::Initing {
            (cell, Caller::Returned(false), false)
        } else {
            (cell, Caller::Waiting, false)
        },
        Caller::Returned(result) => (cell, Caller::Returned(result), false),
    }
}

/// `1` if `caller` is creating the resource, else `0`.
pub open spec fn creating(caller: Caller) -> nat {
    if caller == Caller::Creating {
        1
    } else {
        0
    }
}

/// `1` if `caller` has returned `true`, else `0`.
pub open spec fn won(caller: Caller) -> nat {
    if caller == Caller::Returned(true) {
        1
    } else {
        0
    }
}

/// Whether `caller` has lost the claim.
pub open spec fn lost(caller: Caller) -> bool {
    caller == Caller::Waiting || caller == Caller::Returned(false)
}

/// Whether every step of `schedule` finds the platform willing.
pub open spec fn always_granted(schedule: Seq<Move>) -> bool {
    forall|at: int| 0 <= at < schedule.len() ==> (#[trigger] schedule[at]).grants
}

impl Race {
    /// The race before either caller has moved, on a semaphore that was never
    /// initialised.
    pub open spec fn start() -> Race {
        Race { cell: InitState::Uninit, first: Caller::Start, second: Caller::Start, created: 0 }
    }

    /// The race after one step.
    pub open spec fn step(self, mv: Move) -> Race {
        if mv.second {
            let (cell, second, granted) = act(self.cell, self.second, mv.grants);
            Race {
                cell,
                first: self.first,
                second,
                created: if granted {
                    self.created + 1
                } else {
                    self.created
                },
            }
        } else {
            let (cell, first, granted) = act(self.cell, self.first, mv.grants);
            Race {
                cell,
                first,
                second: self.second,
                created: if granted {
                    self.created + 1
                } else {
                    self.created
                },
            }
        }
    }

    /// The race after the steps of `schedule`, in order.
    pub open spec fn run(self, schedule: Seq<Move>) -> Race
        decreases schedule.len(),
    {
        if schedule.len() == 0 {
            self
        } else {
            self.run(schedule.drop_last()).step(schedule.last())
        }
    }

    /// Whether both calls of `init` have returned.
    pub open spec fn done(self) -> bool {
        self.first is Returned && self.second is Returned
    }

    /// What holds at every moment of a race: the state is `Initing` exactly
    /// while one caller is creating, never two; it is `Inited` exactly once a
    /// resource was handed out, never two; and a caller was told `true` for
    /// each resource.
    pub open spec fn consistent(self) -> bool {
        &&& creating(self.first) + creating(self.second) <= 1
        &&& self.cell == InitState::Initing <==> creating(self.first) + creating(self.second) == 1
        &&& self.created <= 1
        &&& self.cell == InitState::Inited <==> self.created == 1
        &&& won(self.first) + won(self.second) == self.created
    }

    /// What holds in addition while the platform is willing: whoever lost the
    /// claim lost it to the other caller.
    pub open spec fn lost_to_the_other(self) -> bool {
        &&& lost(self.first) ==> self.second == Caller::Creating || self.second == Caller::Returned(
            true,
        )
        &&& lost(self.second) ==> self.first == Caller::Creating || self.first == Caller::Returned(
            true,
        )
    }
}

/// A step keeps a race consistent.
pub proof fn lemma_step_keeps_consistent(race: Race, mv: Move)
    requires
        race.consistent(),
    ensures
        race.step(mv).consistent(),
        mv.grants && race.lost_to_the_other() ==> race.step(mv).lost_to_the_other(),
{
}

/// Every schedule keeps a race consistent.
pub proof fn lemma_run_keeps_consistent(schedule: Seq<Move>)
    ensures
        Race::start().run(schedule).consistent(),
        always_granted(schedule) ==> Race::start().run(schedule).lost_to_the_other(),
    decreases schedule.len(),
{
    if schedule.len() > 0 {
        let earlier = schedule.drop_last();
        lemma_run_keeps_consistent(earlier);
        lemma_step_keeps_consistent(Race::start().run(earlier), schedule.last());
        if always_granted(schedule) {
            assert forall|at: int| 0 <= at < earlier.len() implies (#[trigger] earlier[at]).grants by {
                assert(earlier[at] == schedule[at]);
            }
            assert(schedule[schedule.len() - 1].grants);
        }
    }
}

/// However two callers of `init` interleave on a semaphore that was never
/// initialised, the platform is asked for at most one resource that it
/// grants, and at most one caller is told `true`: the one that created it.
pub proof fn law_race_creates_at_most_once(schedule: Seq<Move>)
    ensures
        Race::start().run(schedule).created <= 1,
        won(Race::start().run(schedule).first) + won(Race::start().run(schedule).second)
            == Race::start().run(schedule).created,
        !(Race::start().run(schedule).first == Caller::Returned(true) && Race::start().run(
            schedule,
        ).second == Caller::Returned(true)),
{
    lemma_run_keeps_consistent(schedule);
}

/// However two callers of `init` interleave on a semaphore that was never
/// initialised, if the platform grants what it is asked for, then once both
/// calls have returned exactly one of them has returned `true`, one resource
/// exists, and the semaphore is initialised.
pub proof fn law_race_has_one_winner(schedule: Seq<Move>)
    requires
        always_granted(schedule),
        Race::start().run(schedule).done(),
    ensures
        (Race::start().run(schedule).first == Caller::Returned(true)) != (Race::start().run(
            schedule,
        ).second == Caller::Returned(true)),
        Race::start().run(schedule).created == 1,
        Race::start().run(schedule).cell == InitState::Inited,
{
    lemma_run_keeps_consistent(schedule);
}

} // verus!
