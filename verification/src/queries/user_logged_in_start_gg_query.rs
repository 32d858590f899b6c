//! The variables and response data of the `UserLoggedInStartGGQuery`
//! operation.
use vstd::prelude::*;

verus! {

/// The operation takes no variables.
pub struct Variables;

/// The data of a response.
pub struct ResponseData {
    pub current_user: Option<CurrentUser>,
}

/// The signed-in user.
pub struct CurrentUser {
    pub player: Option<Player>,
    pub images: Option<Vec<Option<Image>>>,
}

/// The user's player profile.
pub struct Player {
    pub gamer_tag: Option<String>,
}

/// An image of the user.
pub struct Image {
    pub url: Option<String>,
}

/// The user's fields that a successful read takes: the player and its
/// gamer tag, and at least one image, with its URL where the first image
/// is given.
pub open spec fn user_fields_complete(usr: CurrentUser) -> bool {
    &&& usr.player matches Some(p) && p.gamer_tag is Some
    &&& usr.images matches Some(imgs) && imgs@.len() > 0
        && (imgs@[0] matches Some(img) ==> img.url is Some)
}

/// Tells whether the user's fields that a successful read takes are
/// there.
pub fn check_user_fields(usr: &CurrentUser) -> (r: bool)
    ensures
        r == user_fields_complete(*usr),
{
    let player_ok = match &usr.player {
        Some(p) => p.gamer_tag.is_some(),
        None => false,
    };
    let images_ok = match &usr.images {
        Some(imgs) => imgs.len() > 0 && match &imgs[0] {
            Some(img) => img.url.is_some(),
            None => true,
        },
        None => false,
    };
    player_ok && images_ok
}

} // verus!
