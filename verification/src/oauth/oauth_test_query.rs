//! The query we use to ensure that we're
//! successfully logged in to Start.GG
//! (and also get some basic user information).
use vstd::prelude::*;

use crate::queries::get_startgg_user_info::USER_LOGGED_IN_QUERY;
use crate::queries::user_logged_in_start_gg_query::{CurrentUser, ResponseData, Variables};
use crate::queries::{GraphQLResponse, QueryBody};

verus! {

/// Why the response to the query could not be used; the message says why.
#[derive(Debug)]
pub struct UserLoggedInStartGGQueryError(pub String);

impl UserLoggedInStartGGQueryError {
    /// The message for the user.
    pub fn message(&self) -> (r: &String)
        ensures
            r@ == self.0@,
    {
        &self.0
    }
}

/// The query for the signed-in user's gamer tag and images.
pub struct UserLoggedInStartGGQuery;

impl UserLoggedInStartGGQuery {
    /// The request body that runs the query.
    pub fn build_query(variables: Variables) -> (r: QueryBody<Variables>)
        ensures
            r.query@ == USER_LOGGED_IN_QUERY@,
            r.operation_name@ == "UserLoggedInStartGGQuery"@,
    {
        QueryBody { variables, query: USER_LOGGED_IN_QUERY, operation_name: "UserLoggedInStartGGQuery" }
    }
}

/// The user's fields that a successful read takes: the player and its
/// gamer tag, and a first image with a URL.
pub open spec fn user_fields_with_image(usr: CurrentUser) -> bool {
    &&& usr.player matches Some(p) && p.gamer_tag is Some
    &&& usr.images matches Some(imgs) && imgs@.len() > 0 && (imgs@[0] matches Some(img) && img.url is Some)
}

/// Tells whether the user's fields that a successful read takes are
/// there.
pub fn check_user_fields_with_image(usr: &CurrentUser) -> (r: bool)
    ensures
        r == user_fields_with_image(*usr),
{
    let player_ok = match &usr.player {
        Some(p) => p.gamer_tag.is_some(),
        None => false,
    };
    let images_ok = match &usr.images {
        Some(imgs) => imgs.len() > 0 && match &imgs[0] {
            Some(img) => img.url.is_some(),
            None => false,
        },
        None => false,
    };
    player_ok && images_ok
}

/// Whether `resp` may be read without failing on a missing field.
pub open spec fn response_readable(resp: GraphQLResponse<ResponseData>) -> bool {
    match resp.data {
        Some(d) => match d.current_user {
            Some(usr) => user_fields_with_image(usr),
            None => true,
        },
        None => true,
    }
}

/// Takes the user's gamer tag and the URL of the user's first image from
/// the response to `UserLoggedInStartGGQuery`.
pub fn get_startgg_user_and_profile_icon(resp: GraphQLResponse<ResponseData>) -> (r: Result<(String, String), UserLoggedInStartGGQueryError>)
    requires
        response_readable(resp),
    ensures
        match resp.data {
            None => (r matches Err(e) && e.0@ == "`data` does not exist in query."@),
            Some(d) => match d.current_user {
                None => (r matches Err(e) && e.0@ == "`currentUser` does not exist in query."@),
                Some(usr) => (r matches Ok((name, url))
                    && name@ == usr.player.unwrap().gamer_tag.unwrap()@
                    && url@ == usr.images.unwrap()@[0].unwrap().url.unwrap()@),
            },
        },
{
    let respdata = match resp.data {
        Some(d) => {
            match d.current_user {
                Some(usr) => usr,
                None => {
                    return Err(UserLoggedInStartGGQueryError(String::from_str("`currentUser` does not exist in query.")));
                },
            }
        },
        None => {
            return Err(UserLoggedInStartGGQueryError(String::from_str("`data` does not exist in query.")));
        },
    };

    let images = respdata.images.unwrap();
    let url = images[0].as_ref().unwrap().url.as_ref().unwrap().clone();
    Ok((respdata.player.unwrap().gamer_tag.unwrap().clone(), url))
}

} // verus!
