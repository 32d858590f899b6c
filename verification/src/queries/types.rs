//! The structs our queries return.
pub use super::get_startgg_user_info::GetStartGGUserInfoResult;
pub use super::get_tournament_information::TournamentInformationQueryResult;
