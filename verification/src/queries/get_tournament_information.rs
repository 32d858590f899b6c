//! Gets tournament information including entrant count,
//! tournament name, and event name.
use vstd::prelude::*;

use super::tournament_information_query::{Event, ResponseData, Variables};
use super::{GraphQLResponse, QueryBody, QueryError};

verus! {

/// The names of a tournament and of one of its events, and the number of
/// the event's entrants.
#[derive(Debug, Clone)]
pub struct TournamentInformationQueryResult {
    tournament_name: String,
    event_name: String,
    num_entrants: i64,
}

impl TournamentInformationQueryResult {
    /// The tournament's name, for contracts.
    pub closed spec fn tournament_name(self) -> Seq<char> {
        self.tournament_name@
    }

    /// The event's name, for contracts.
    pub closed spec fn event_name(self) -> Seq<char> {
        self.event_name@
    }

    /// The number of entrants, for contracts.
    pub closed spec fn num_entrants(self) -> i64 {
        self.num_entrants
    }

    /// The tournament's name.
    pub fn get_tournament_name(&self) -> (r: &String)
        ensures
            r@ == self.tournament_name(),
    {
        &self.tournament_name
    }

    /// The event's name.
    pub fn get_event_name(&self) -> (r: &String)
        ensures
            r@ == self.event_name(),
    {
        &self.event_name
    }

    /// The number of the event's entrants.
    pub fn get_num_entrants(&self) -> (r: i64)
        ensures
            r == self.num_entrants(),
    {
        self.num_entrants
    }
}

/// The query for an event's name and entrant count and its tournament's
/// name.
pub struct TournamentInformationQuery;

/// The query document of `TournamentInformationQuery`.
pub const TOURNAMENT_INFORMATION_QUERY: &'static str = "query TournamentInformationQuery($eventSlug: String) {
  event(slug: $eventSlug) {
    name
    numEntrants
    tournament {
      name
    }
  }
}
";

impl TournamentInformationQuery {
    /// The request body that runs the query with `variables`.
    pub fn build_query(variables: Variables) -> (r: QueryBody<Variables>)
        ensures
            r.variables == variables,
            r.query@ == TOURNAMENT_INFORMATION_QUERY@,
            r.operation_name@ == "TournamentInformationQuery"@,
    {
        QueryBody { variables, query: TOURNAMENT_INFORMATION_QUERY, operation_name: "TournamentInformationQuery" }
    }
}

/// The request body that asks about the event with slug `event_slug`.
pub fn tournament_query_body(event_slug: &str) -> (r: QueryBody<Variables>)
    ensures
        r.variables.event_slug matches Some(s) && s@ == event_slug@,
        r.query@ == TOURNAMENT_INFORMATION_QUERY@,
        r.operation_name@ == "TournamentInformationQuery"@,
{
    TournamentInformationQuery::build_query(Variables { event_slug: Some(String::from_str(event_slug)) })
}

/// Whether an event's fields that a successful read takes are there:
/// where the event has a tournament, the tournament's name and the event's
/// name and entrant count.
pub open spec fn event_fields_complete(event: Event) -> bool {
    event.tournament matches Some(t) ==> {
        &&& t.name is Some
        &&& event.name is Some
        &&& event.num_entrants is Some
    }
}

/// Tells whether an event's fields that a successful read takes are
/// there.
pub fn check_event_fields(event: &Event) -> (r: bool)
    ensures
        r == event_fields_complete(*event),
{
    match &event.tournament {
        Some(t) => t.name.is_some() && event.name.is_some() && event.num_entrants.is_some(),
        None => true,
    }
}

/// Whether `resp` may be read without failing on a missing field: where
/// it has an event, that event's fields are complete.
pub open spec fn tournament_response_readable(resp: GraphQLResponse<ResponseData>) -> bool {
    match resp.data {
        Some(d) => match d.event {
            Some(e) => event_fields_complete(e),
            None => true,
        },
        None => true,
    }
}

/// Takes the tournament's name, the event's name and its entrant count
/// from the response to `TournamentInformationQuery`.
pub fn get_tournament_and_event_info(resp: GraphQLResponse<ResponseData>) -> (r: Result<TournamentInformationQueryResult, QueryError>)
    requires
        tournament_response_readable(resp),
    ensures
        match resp.data {
            None => r == Err::<TournamentInformationQueryResult, QueryError>(QueryError::MissingData),
            Some(d) => match d.event {
                None => r == Err::<TournamentInformationQueryResult, QueryError>(QueryError::MissingEvent),
                Some(e) => match e.tournament {
                    None => r == Err::<TournamentInformationQueryResult, QueryError>(QueryError::MissingTournament),
                    Some(t) => (r matches Ok(info)
                        && info.tournament_name() == t.name.unwrap()@
                        && info.event_name() == e.name.unwrap()@
                        && info.num_entrants() == e.num_entrants.unwrap()),
                },
            },
        },
{
    let respdata = match resp.data {
        Some(d) => d,
        None => {
            return Err(QueryError::MissingData);
        },
    };

    let event = match respdata.event {
        Some(e) => e,
        None => return Err(QueryError::MissingEvent),
    };

    let tournament = match event.tournament {
        Some(t) => t,
        None => return Err(QueryError::MissingTournament),
    };

    Ok(TournamentInformationQueryResult {
        tournament_name: tournament.name.unwrap().clone(),
        event_name: event.name.unwrap().clone(),
        num_entrants: event.num_entrants.unwrap(),
    })
}

} // verus!
