//! The query we use to ensure that we're
//! successfully logged in to Start.GG
//! (and also get some basic user information).
use vstd::prelude::*;

use super::user_logged_in_start_gg_query::{user_fields_complete, CurrentUser, ResponseData, Variables};
use super::{GraphQLResponse, QueryBody, QueryError};

verus! {

/// The user's name and the URL of the user's profile picture, where the
/// user has one.
#[derive(Debug, Clone)]
pub struct GetStartGGUserInfoResult {
    pub username: String,
    pub pfp_url: Option<String>,
}

/// The query for the signed-in user's gamer tag and images.
pub struct UserLoggedInStartGGQuery;

/// The query document of `UserLoggedInStartGGQuery`.
pub const USER_LOGGED_IN_QUERY: &'static str = "query UserLoggedInStartGGQuery {
  currentUser {
    player {
      gamerTag
    }
    images {
      url
    }
  }
}
";

impl UserLoggedInStartGGQuery {
    /// The request body that runs the query.
    pub fn build_query(variables: Variables) -> (r: QueryBody<Variables>)
        ensures
            r.query@ == USER_LOGGED_IN_QUERY@,
            r.operation_name@ == "UserLoggedInStartGGQuery"@,
    {
        QueryBody { variables, query: USER_LOGGED_IN_QUERY, operation_name: "UserLoggedInStartGGQuery" }
    }
}

/// The gamer tag of a user whose fields are complete.
pub open spec fn gamer_tag_of(usr: CurrentUser) -> Seq<char> {
    usr.player.unwrap().gamer_tag.unwrap()@
}

/// The profile picture URL of a user whose fields are complete: that of
/// the first image, where it is given.
pub open spec fn pfp_url_of(usr: CurrentUser) -> Option<Seq<char>> {
    match usr.images.unwrap()@[0] {
        Some(img) => Some(img.url.unwrap()@),
        None => None,
    }
}

/// A user whose first image is given is shown with that image's URL as
/// profile picture, however many images follow; a user whose first image
/// is missing has none; and the name shown is the player's gamer tag.
pub proof fn law_profile_picture_is_first_image(usr: CurrentUser)
    requires
        user_fields_complete(usr),
    ensures
        usr.images.unwrap()@[0] matches Some(img) ==> pfp_url_of(usr) == Some(img.url.unwrap()@),
        usr.images.unwrap()@[0] is None ==> pfp_url_of(usr) is None,
        gamer_tag_of(usr) == usr.player.unwrap().gamer_tag.unwrap()@,
{
}

/// Whether `resp` may be read without failing on a missing field: where
/// it has a current user, that user's fields are complete.
pub open spec fn user_response_readable(resp: GraphQLResponse<ResponseData>) -> bool {
    match resp.data {
        Some(d) => match d.current_user {
            Some(usr) => user_fields_complete(usr),
            None => true,
        },
        None => true,
    }
}

/// Takes the user's name and profile picture URL from the response to
/// `UserLoggedInStartGGQuery`.
pub fn get_startgg_user_and_profile_icon(resp: GraphQLResponse<ResponseData>) -> (r: Result<GetStartGGUserInfoResult, QueryError>)
    requires
        user_response_readable(resp),
    ensures
        match resp.data {
            None => r == Err::<GetStartGGUserInfoResult, QueryError>(QueryError::MissingData),
            Some(d) => match d.current_user {
                None => r == Err::<GetStartGGUserInfoResult, QueryError>(QueryError::MissingCurrentUser),
                Some(usr) => (r matches Ok(info) && info.username@ == gamer_tag_of(usr)
                    && match info.pfp_url {
                        Some(u) => pfp_url_of(usr) == Some(u@),
                        None => pfp_url_of(usr) is None,
                    }),
            },
        },
        resp.data matches Some(d) ==> (d.current_user matches Some(usr) ==> (r matches Ok(info)
            && info.username@ == usr.player.unwrap().gamer_tag.unwrap()@
            && (usr.images.unwrap()@[0] matches Some(img) ==> (info.pfp_url matches Some(u) && u@
                == img.url.unwrap()@))
            && (usr.images.unwrap()@[0] is None ==> info.pfp_url is None))),
{
    let respdata = match resp.data {
        Some(d) => match d.current_user {
            Some(usr) => usr,
            None => return Err(QueryError::MissingCurrentUser),
        },
        None => return Err(QueryError::MissingData),
    };

    let images = respdata.images.unwrap();
    let url_string = match &images[0] {
        Some(img) => Some(img.url.as_ref().unwrap().clone()),
        None => None,
    };

    Ok(GetStartGGUserInfoResult {
        username: respdata.player.unwrap().gamer_tag.unwrap().clone(),
        pfp_url: url_string,
    })
}

} // verus!
