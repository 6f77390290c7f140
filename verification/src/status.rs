//! The lifecycle stage of a game instance.

use vstd::prelude::*;

verus! {

/// Lifecycle of a game instance. The only reachable order is
/// `NotStarted` -> `Started` -> `FinishedNotClaimed` -> `FinishedAndClaimed`;
/// the status is the single source of truth for which operations are
/// permitted.
#[derive(Clone, Copy, PartialEq, Eq, Structural, Debug)]
pub enum Status {
    NotStarted,
    Started,
    FinishedNotClaimed,
    FinishedAndClaimed,
}

} // verus!
