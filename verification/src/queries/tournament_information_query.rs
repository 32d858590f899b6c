//! The variables and response data of the `TournamentInformationQuery`
//! operation.
use vstd::prelude::*;

verus! {

/// The event to ask about, by its slug.
pub struct Variables {
    pub event_slug: Option<String>,
}

/// The data of a response.
pub struct ResponseData {
    pub event: Option<Event>,
}

/// The event.
pub struct Event {
    pub name: Option<String>,
    pub num_entrants: Option<i64>,
    pub tournament: Option<Tournament>,
}

/// The tournament that holds the event.
pub struct Tournament {
    pub name: Option<String>,
}

} // verus!
