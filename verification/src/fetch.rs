//! The background catalog-fetch hand-off: a single-consumption handle.
//!
//! The actual worker (a thread joined outside this crate) is identified by
//! a ticket; this module owns the lifecycle and enforces that the fetched
//! catalog is moved out at most once.

use vstd::prelude::*;

use crate::anime::Anime;

verus! {

/// Identifies one background fetch task to the process that runs it.
#[derive(Clone, Copy, PartialEq, Eq, Structural, Debug)]
pub struct FetchTicket {
    pub id: u64,
}

/// Why a handle operation was refused.
#[derive(Clone, Copy, PartialEq, Eq, Structural, Debug)]
pub enum StateError {
    /// The handle's catalog was already moved out.
    Consumed,
    /// The background task has not delivered its catalog yet.
    Pending,
    /// An event or operation arrived while the session was in a state of
    /// another shape.
    Mismatch,
}

/// Lifecycle of one background catalog fetch.
///
/// `Obtaining` holds the ticket of a running task; `Obtained` holds the
/// delivered catalog; `Transitioning` is the placeholder left behind once
/// the catalog has been moved out (or while a transition is in flight).
#[derive(Debug)]
pub enum ListQueryState {
    Transitioning,
    Obtaining(FetchTicket),
    Obtained(Vec<Anime>),
}

/// What `take_catalog` returns and leaves behind, as a function of the
/// handle it found.
pub open spec fn take_spec(s: ListQueryState) -> (Result<Vec<Anime>, StateError>, ListQueryState) {
    match s {
        ListQueryState::Obtained(catalog) => (Ok(catalog), ListQueryState::Transitioning),
        ListQueryState::Obtaining(t) => (Err(StateError::Pending), s),
        ListQueryState::Transitioning => (Err(StateError::Consumed), s),
    }
}

/// What `fulfill` returns, as a function of the handle it found.
pub open spec fn fulfill_spec(s: ListQueryState, catalog: Vec<Anime>) -> Result<
    ListQueryState,
    StateError,
> {
    match s {
        ListQueryState::Obtaining(t) => Ok(ListQueryState::Obtained(catalog)),
        ListQueryState::Obtained(old) => Err(StateError::Mismatch),
        ListQueryState::Transitioning => Err(StateError::Consumed),
    }
}

impl ListQueryState {
    /// Hands a running handle the catalog its task delivered. Refused on a
    /// handle that is not waiting for one.
    pub fn fulfill(self, catalog: Vec<Anime>) -> (r: Result<ListQueryState, StateError>)
        ensures
            r == fulfill_spec(self, catalog),
    {
        match self {
            ListQueryState::Obtaining(_) => Ok(ListQueryState::Obtained(catalog)),
            ListQueryState::Obtained(_) => Err(StateError::Mismatch),
            ListQueryState::Transitioning => Err(StateError::Consumed),
        }
    }

    /// Moves the catalog out of the handle, leaving the consumed
    /// placeholder behind, so that a second call deterministically fails.
    pub fn take_catalog(&mut self) -> (r: Result<Vec<Anime>, StateError>)
        ensures
            r == take_spec(*old(self)).0,
            *final(self) == take_spec(*old(self)).1,
    {
        let mut prev = ListQueryState::Transitioning;
        core::mem::swap(self, &mut prev);
        match prev {
            ListQueryState::Obtained(catalog) => Ok(catalog),
            ListQueryState::Obtaining(t) => {
                *self = ListQueryState::Obtaining(t);
                Err(StateError::Pending)
            },
            ListQueryState::Transitioning => Err(StateError::Consumed),
        }
    }
}

/// Consumption happens at most once: whenever taking the catalog out of a
/// handle succeeds, taking it from what the handle became fails, and fails
/// with the error that names the consumption.
pub proof fn lemma_consume_at_most_once(s: ListQueryState)
    ensures
        take_spec(s).0 is Ok ==> take_spec(take_spec(s).1).0 == Result::<
            Vec<Anime>,
            StateError,
        >::Err(StateError::Consumed),
{
}

} // verus!
