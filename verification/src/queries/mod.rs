//! The start.gg GraphQL queries: their request bodies, the data their
//! responses carry, and what the application takes from that data.
pub mod get_startgg_user_info;
pub mod get_tournament_information;
pub mod tournament_information_query;
pub mod types;
pub mod user_logged_in_start_gg_query;

pub use self::get_startgg_user_info::get_startgg_user_and_profile_icon;
pub use self::get_tournament_information::get_tournament_and_event_info;

use vstd::prelude::*;

verus! {

/// The API endpoint to which we send GraphQL
/// queries.
pub const STARTGG_ENDPOINT: &'static str = "https://api.start.gg/gql/alpha";

/// The body of a GraphQL request: the variables, the query document and
/// the name of the operation to run.
pub struct QueryBody<V> {
    pub variables: V,
    pub query: &'static str,
    pub operation_name: &'static str,
}

/// The part of a GraphQL response that the queries read: its data, where
/// the server sent any.
pub struct GraphQLResponse<D> {
    pub data: Option<D>,
}

/// Why a query's response could not be used.
#[derive(Debug, PartialEq, Eq, Structural)]
pub enum QueryError {
    /// The response carries no data.
    MissingData,
    /// The response's data has no current user.
    MissingCurrentUser,
    /// The response's data has no event.
    MissingEvent,
    /// The event has no tournament.
    MissingTournament,
}

impl QueryError {
    /// The message for the user.
    pub open spec fn spec_message(self) -> Seq<char> {
        match self {
            QueryError::MissingData => "`data` does not exist in query."@,
            QueryError::MissingCurrentUser => "`currentUser` does not exist in query."@,
            QueryError::MissingEvent => "`event` does not exist in query."@,
            QueryError::MissingTournament => "`tournament` does not exist in query."@,
        }
    }

    /// The message for the user.
    pub fn message(&self) -> (r: &'static str)
        ensures
            r@ == self.spec_message(),
    {
        match self {
            QueryError::MissingData => "`data` does not exist in query.",
            QueryError::MissingCurrentUser => "`currentUser` does not exist in query.",
            QueryError::MissingEvent => "`event` does not exist in query.",
            QueryError::MissingTournament => "`tournament` does not exist in query.",
        }
    }
}

} // verus!
