//! The `oauth2` crate's authorization URL, and the random CSRF state it
//! carries.
use vstd::prelude::*;

use super::StartGGOAuthClientParts;
use crate::text::string_views;

verus! {

/// The authorization URL that `oauth2` builds for a client with the given
/// authorization URL, identifier and redirect URL, asking for `scopes`
/// with CSRF state `state` (`oauth2::Client::authorize_url`, then
/// `add_scopes` and `url`); `None` where `oauth2::AuthUrl::new` or
/// `oauth2::RedirectUrl::new` refuses its URL.
pub uninterp spec fn authorize_url_of(
    auth_url: Seq<char>,
    client_id: Seq<char>,
    redirect_url: Seq<char>,
    scopes: Seq<Seq<char>>,
    state: Seq<char>,
) -> Option<Seq<char>>;

/// The view of an optional string.
pub open spec fn option_view(o: Option<String>) -> Option<Seq<char>> {
    match o {
        Some(s) => Some(s@),
        None => None,
    }
}

/// Builds the authorization URL of the client made of `parts`, asking for
/// its scopes, with CSRF state `state`: `oauth2::AuthUrl::new` and
/// `oauth2::RedirectUrl::new` on its URLs, `oauth2::Client::authorize_url`,
/// `add_scopes` and `url`. The result is a function of those values alone;
/// it is `None` where one of the two URLs is refused.
#[verifier::external_body]
pub(crate) fn authorize_url(parts: &StartGGOAuthClientParts, state: &str) -> (r: Option<String>)
    ensures
        option_view(r) == authorize_url_of(
            parts.auth_url@,
            parts.client_id@,
            parts.redirect_url@,
            string_views(parts.scopes@),
            state@,
        ),
{
    let auth_url = oauth2::AuthUrl::new(parts.auth_url.clone()).ok()?;
    let redirect_url = oauth2::RedirectUrl::new(parts.redirect_url.clone()).ok()?;
    let client = oauth2::basic::BasicClient::new(oauth2::ClientId::new(parts.client_id.clone()))
        .set_auth_uri(auth_url)
        .set_redirect_uri(redirect_url);
    let token = oauth2::CsrfToken::new(state.to_string());
    let scopes = parts.scopes.iter().cloned().map(oauth2::Scope::new);
    let (url, _) = client.authorize_url(|| token).add_scopes(scopes).url();
    Some(url.to_string())
}

/// A fresh CSRF state, from `oauth2::CsrfToken::new_random`. It is drawn
/// at random, so nothing is promised of it.
#[verifier::external_body]
pub(crate) fn new_csrf_state() -> (r: String) {
    oauth2::CsrfToken::new_random().into_secret()
}

} // verus!
