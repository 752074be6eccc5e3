//! A counting semaphore with lazy, race-free initialisation.
//!
//! The crate is split along the line between what a semaphore *decides* and
//! what the operating system *does*. Everything that is a decision lives here
//! and is proved:
//!
//! - [`state`]: the three-state initialisation protocol, and [`cell`], the
//!   shared byte that carries it;
//! - [`count`]: the arithmetic on the count;
//! - [`errno`]: the classification of error codes;
//! - [`outcome`]: the verdict after each native call;
//! - [`deadline`]: the conversion of a timeout into what a platform expects;
//! - [`model`]: the semaphore as one thread sees it, with the laws it obeys;
//! - [`race`]: two threads initialising the same semaphore at once.
//!
//! [`Sem`] is a complete semaphore that keeps its count in one shared integer,
//! and [`binary::Sem`] a lock that keeps one shared flag. Neither ever
//! suspends the calling thread: every operation is a single attempt, or a
//! bounded number of them. A wait without bound is a loop around an attempt,
//! and belongs to the caller.

pub mod binary;
pub mod cell;
pub mod count;
pub mod deadline;
pub mod errno;
pub mod model;
pub mod outcome;
pub mod race;
pub mod sem;
pub mod state;

pub use cell::InitCell;
pub use count::{CountOp, MAX_COUNT};
pub use deadline::{MachTimeSpec, TimeSpec, Timeout};
pub use errno::{Codes, ErrorClass};
pub use model::Model;
pub use outcome::Step;
pub use sem::{Guard, Sem};
pub use state::{Event, InitState};
