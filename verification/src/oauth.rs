//! OAuth handling: the start.gg client's endpoints, the handling of the
//! redirect that brings back the authorization code, and the answer to it.
pub mod authorize;
pub mod oauth_test_query;
pub mod url_query;

use vstd::prelude::*;

use self::authorize::{authorize_url, authorize_url_of, new_csrf_state};
use self::url_query::{pair_views, parse_url_query_pairs, url_parses, url_query_pairs};
use crate::text::{decimal, decimal_string, split_words, string_views, words};

verus! {

pub const STARTGG_AUTH_URL: &'static str = "https://start.gg/oauth/authorize";
pub const STARTGG_TOKEN_URL: &'static str = "https://api.start.gg/oauth/access_token";
/// The one scope the application asks for.
pub const STARTGG_AUTH_SCOPE: &'static str = "user.identity";
pub const STARTGG_REDIRECT_URI: &'static str = "http://localhost";

/// The start.gg OAuth flow.
pub struct StartGGOAuth;

/// The values from which the start.gg OAuth client is built: its
/// identifier and secret, its authorization, token and redirect URLs, and
/// the scopes it asks for.
pub struct StartGGOAuthClientParts {
    pub client_id: String,
    pub client_secret: String,
    pub auth_url: String,
    pub token_url: String,
    pub redirect_url: String,
    pub scopes: Vec<String>,
}

/// The URL to which start.gg redirects after authorization:
/// `http://localhost:<port>`.
pub open spec fn redirect_uri_for(port: u16) -> Seq<char> {
    STARTGG_REDIRECT_URI@ + ":"@ + decimal(port as nat)
}

/// The query pairs of the request line's target, read as a path of
/// `http://localhost`, where the line has a target and that makes a URL.
pub open spec fn redirect_query(request_line: Seq<char>) -> Option<Seq<(Seq<char>, Seq<char>)>> {
    let w = words(request_line);
    if w.len() < 2 {
        None
    } else {
        let url = "http://localhost"@ + w[1];
        if url_parses(url) {
            Some(url_query_pairs(url))
        } else {
            None
        }
    }
}

/// The value of the first pair whose key is `key`.
pub open spec fn first_value(pairs: Seq<(Seq<char>, Seq<char>)>, key: Seq<char>) -> Option<Seq<char>>
    decreases pairs.len(),
{
    if pairs.len() == 0 {
        None
    } else if pairs[0].0 == key {
        Some(pairs[0].1)
    } else {
        first_value(pairs.drop_first(), key)
    }
}

/// The value that `first_value` finds is that of the first pair with the
/// key, whole; and it finds none exactly when no pair has the key.
pub proof fn law_first_value_is_first_match(pairs: Seq<(Seq<char>, Seq<char>)>, key: Seq<char>)
    ensures
        first_value(pairs, key) matches Some(v) ==> exists|i: int|
            0 <= i < pairs.len() && #[trigger] pairs[i] == (key, v) && forall|j: int|
                0 <= j < i ==> (#[trigger] pairs[j]).0 != key,
        first_value(pairs, key) is None <==> forall|i: int| 0 <= i < pairs.len() ==> (#[trigger] pairs[i]).0 != key,
    decreases pairs.len(),
{
    if pairs.len() > 0 {
        let rest = pairs.drop_first();
        law_first_value_is_first_match(rest, key);
        if pairs[0].0 == key {
            assert(pairs[0] == (key, pairs[0].1));
        } else {
            if let Some(v) = first_value(rest, key) {
                let i = choose|i: int|
                    0 <= i < rest.len() && #[trigger] rest[i] == (key, v) && forall|j: int|
                        0 <= j < i ==> (#[trigger] rest[j]).0 != key;
                assert(pairs[i + 1] == rest[i]);
                assert forall|j: int| 0 <= j < i + 1 implies (#[trigger] pairs[j]).0 != key by {
                    if j > 0 {
                        assert(pairs[j] == rest[j - 1]);
                    }
                }
            } else {
                assert forall|i: int| 0 <= i < pairs.len() implies (#[trigger] pairs[i]).0 != key by {
                    if i > 0 {
                        assert(pairs[i] == rest[i - 1]);
                    }
                }
            }
            if forall|i: int| 0 <= i < pairs.len() ==> (#[trigger] pairs[i]).0 != key {
                assert forall|i: int| 0 <= i < rest.len() implies (#[trigger] rest[i]).0 != key by {
                    assert(rest[i] == pairs[i + 1]);
                }
            }
        }
    }
}

/// The code and the state read from a redirect are the whole decoded values
/// of the first `code` and the first `state` pair of the query of the
/// line's target (read as a path of `http://localhost`); they are read
/// exactly when the target makes a URL whose query has both keys.
pub proof fn law_redirect_params_are_first_pairs(line: Seq<char>)
    ensures
        ({
            let w = words(line);
            let url = "http://localhost"@ + w[1];
            let pairs = url_query_pairs(url);
            &&& redirect_params(line) matches Some((code, state)) ==> {
                &&& w.len() >= 2
                &&& url_parses(url)
                &&& exists|i: int|
                    0 <= i < pairs.len() && #[trigger] pairs[i] == ("code"@, code) && forall|j: int|
                        0 <= j < i ==> (#[trigger] pairs[j]).0 != "code"@
                &&& exists|i: int|
                    0 <= i < pairs.len() && #[trigger] pairs[i] == ("state"@, state) && forall|j: int|
                        0 <= j < i ==> (#[trigger] pairs[j]).0 != "state"@
            }
            &&& redirect_params(line) is Some <==> {
                &&& w.len() >= 2
                &&& url_parses(url)
                &&& exists|i: int| 0 <= i < pairs.len() && (#[trigger] pairs[i]).0 == "code"@
                &&& exists|i: int| 0 <= i < pairs.len() && (#[trigger] pairs[i]).0 == "state"@
            }
        }),
{
    let w = words(line);
    let url = "http://localhost"@ + w[1];
    let pairs = url_query_pairs(url);
    law_first_value_is_first_match(pairs, "code"@);
    law_first_value_is_first_match(pairs, "state"@);
}

/// The authorization code and the state that a redirect brought back.
pub struct RedirectParams {
    pub code: String,
    pub state: String,
}

/// The code and state of a redirect's request line: the values of the
/// first `code` and `state` pairs of its query.
pub open spec fn redirect_params(request_line: Seq<char>) -> Option<(Seq<char>, Seq<char>)> {
    match redirect_query(request_line) {
        None => None,
        Some(pairs) => match (first_value(pairs, "code"@), first_value(pairs, "state"@)) {
            (Some(code), Some(state)) => Some((code, state)),
            _ => None,
        },
    }
}

/// The page shown to the user once the redirect has arrived.
pub const OAUTH_SUCCESS_MESSAGE: &'static str = "<!DOCTYPE html><html><body><p>Go back to EZPR - OAuth Successful!</p></body></html>";

/// The HTTP response that answers the redirect.
pub open spec fn redirect_response_text() -> Seq<char> {
    "HTTP/1.1 200 OK\r\ncontent-length: "@ + decimal(OAUTH_SUCCESS_MESSAGE.len() as nat) + "\r\n\r\n"@
        + OAUTH_SUCCESS_MESSAGE@
}

/// `parts` are the client's parts for the given port, identifier and
/// secret (as `client_parts` makes them).
pub open spec fn parts_for(parts: StartGGOAuthClientParts, port: u16, client_id: Seq<char>, client_secret: Seq<char>) -> bool {
    &&& parts.client_id@ == client_id
    &&& parts.client_secret@ == client_secret
    &&& parts.auth_url@ == STARTGG_AUTH_URL@
    &&& parts.token_url@ == STARTGG_TOKEN_URL@
    &&& parts.redirect_url@ == redirect_uri_for(port)
    &&& string_views(parts.scopes@) == seq![STARTGG_AUTH_SCOPE@]
}

/// A sign-in that came back holds the client's parts for the port,
/// identifier and secret, the state `state`, and the authorization URL
/// that `oauth2` builds for them with that state.
pub open spec fn authorization_matches(
    r: Option<(String, String, StartGGOAuthClientParts)>,
    port: u16,
    client_id: Seq<char>,
    client_secret: Seq<char>,
    state: Seq<char>,
) -> bool {
    r matches Some((url, s, parts)) ==> {
        &&& parts_for(parts, port, client_id, client_secret)
        &&& s@ == state
        &&& authorize_url_of(STARTGG_AUTH_URL@, client_id, redirect_uri_for(port), seq![STARTGG_AUTH_SCOPE@], state)
            == Some(url@)
    }
}

/// Finds the value of the first pair whose key is `key`.
pub fn find_query_value(pairs: &Vec<(String, String)>, key: &str) -> (r: Option<String>)
    ensures
        match first_value(pair_views(pairs@), key@) {
            Some(v) => (r matches Some(s) && s@ == v),
            None => r is None,
        },
{
    let wanted = String::from_str(key);
    let ghost all = pair_views(pairs@);
    let n: usize = pairs.len();
    let mut i: usize = 0;
    assert(all.skip(0) =~= all);
    while i < n
        invariant
            n == pairs@.len(),
            all == pair_views(pairs@),
            all.len() == n,
            wanted@ == key@,
            0 <= i <= n,
            first_value(all, key@) == first_value(all.skip(i as int), key@),
        decreases n - i,
    {
        assert(all.skip(i as int)[0] == all[i as int]);
        if pairs[i].0 == wanted {
            return Some(pairs[i].1.clone());
        }
        assert(all.skip(i as int).drop_first() =~= all.skip(i + 1));
        i = i + 1;
    }
    None
}

impl StartGGOAuth {
    /// The URL to which start.gg redirects after authorization, on the
    /// given local port.
    pub fn redirect_uri(redirect_uri_port: u16) -> (r: String)
        ensures
            r@ == redirect_uri_for(redirect_uri_port),
    {
        let s = String::from_str(STARTGG_REDIRECT_URI);
        let s = s.concat(":");
        let port = decimal_string(redirect_uri_port as u64);
        s.concat(port.as_str())
    }

    /// Prepares the start.gg OAuth client: the given identifier and
    /// secret, the start.gg authorization and token URLs, the redirect to
    /// the given local port, and the `user.identity` scope.
    pub fn client_parts(redirect_uri_port: u16, client_id: String, client_secret: String) -> (r: StartGGOAuthClientParts)
        ensures
            r.client_id@ == client_id@,
            r.client_secret@ == client_secret@,
            r.auth_url@ == STARTGG_AUTH_URL@,
            r.token_url@ == STARTGG_TOKEN_URL@,
            r.redirect_url@ == redirect_uri_for(redirect_uri_port),
            string_views(r.scopes@) == seq![STARTGG_AUTH_SCOPE@],
    {
        let mut scopes: Vec<String> = Vec::new();
        scopes.push(String::from_str(STARTGG_AUTH_SCOPE));
        assert(string_views(scopes@) =~= seq![STARTGG_AUTH_SCOPE@]);
        StartGGOAuthClientParts {
            client_id,
            client_secret,
            auth_url: String::from_str(STARTGG_AUTH_URL),
            token_url: String::from_str(STARTGG_TOKEN_URL),
            redirect_url: Self::redirect_uri(redirect_uri_port),
            scopes,
        }
    }

    /// The start of a sign-in for a CSRF state: the client's parts
    /// (`client_parts`), the authorization URL that `oauth2` builds for
    /// them with that state, and the state. `None` where `oauth2` refuses
    /// one of the client's URLs.
    pub fn authorization_for(
        redirect_uri_port: u16,
        client_id: String,
        client_secret: String,
        csrf_state: String,
    ) -> (r: Option<(String, String, StartGGOAuthClientParts)>)
        ensures
            authorization_matches(r, redirect_uri_port, client_id@, client_secret@, csrf_state@),
            r is None <==> authorize_url_of(
                STARTGG_AUTH_URL@,
                client_id@,
                redirect_uri_for(redirect_uri_port),
                seq![STARTGG_AUTH_SCOPE@],
                csrf_state@,
            ) is None,
    {
        let parts = Self::client_parts(redirect_uri_port, client_id, client_secret);
        match authorize_url(&parts, csrf_state.as_str()) {
            Some(url) => Some((url, csrf_state, parts)),
            None => None,
        }
    }

    /// Starts a sign-in: draws a fresh CSRF state and gives the
    /// authorization URL to send the user to, the state, and the parts of
    /// the client that will trade the code for a token (see
    /// `authorization_for`). `None` where `oauth2` refuses one of the
    /// client's URLs for the state drawn.
    pub fn get_oauth_token(
        redirect_uri_port: u16,
        client_id: String,
        client_secret: String,
    ) -> (r: Option<(String, String, StartGGOAuthClientParts)>)
        ensures
            r matches Some((url, state, parts)) ==> authorization_matches(
                r,
                redirect_uri_port,
                client_id@,
                client_secret@,
                state@,
            ),
            r is None ==> exists|state: Seq<char>| authorize_url_of(
                STARTGG_AUTH_URL@,
                client_id@,
                redirect_uri_for(redirect_uri_port),
                seq![STARTGG_AUTH_SCOPE@],
                state,
            ) is None,
    {
        let csrf_state = new_csrf_state();
        Self::authorization_for(redirect_uri_port, client_id, client_secret, csrf_state)
    }

    /// Reads the authorization code and the state from the request line of
    /// the redirect (`GET /?code=...&state=... HTTP/1.1`). `None` where the
    /// line has no target, the target does not make a URL, or the query
    /// lacks a `code` or a `state`.
    pub fn parse_redirect_request(request_line: &str) -> (r: Option<RedirectParams>)
        ensures
            match redirect_params(request_line@) {
                Some((code, state)) => (r matches Some(p) && p.code@ == code && p.state@ == state),
                None => r is None,
            },
            r matches Some(p) ==> ({
                let w = words(request_line@);
                let pairs = url_query_pairs("http://localhost"@ + w[1]);
                &&& w.len() >= 2
                &&& url_parses("http://localhost"@ + w[1])
                &&& exists|i: int|
                    0 <= i < pairs.len() && #[trigger] pairs[i] == ("code"@, p.code@) && forall|j: int|
                        0 <= j < i ==> (#[trigger] pairs[j]).0 != "code"@
                &&& exists|i: int|
                    0 <= i < pairs.len() && #[trigger] pairs[i] == ("state"@, p.state@) && forall|j: int|
                        0 <= j < i ==> (#[trigger] pairs[j]).0 != "state"@
            }),
    {
        proof {
            law_redirect_params_are_first_pairs(request_line@);
        }
        let words_found = split_words(request_line);
        if words_found.len() < 2 {
            return None;
        }
        let redirect_url = &words_found[1];
        let url = String::from_str("http://localhost").concat(redirect_url.as_str());
        assert(url@ == "http://localhost"@ + words(request_line@)[1]);
        let pairs = match parse_url_query_pairs(url.as_str()) {
            Some(p) => p,
            None => return None,
        };
        let code = match find_query_value(&pairs, "code") {
            Some(c) => c,
            None => return None,
        };
        let state = match find_query_value(&pairs, "state") {
            Some(s) => s,
            None => return None,
        };
        Some(RedirectParams { code, state })
    }

    /// The HTTP response that tells the user the redirect arrived.
    pub fn redirect_response() -> (r: String)
        ensures
            r@ == redirect_response_text(),
    {
        let len: usize = OAUTH_SUCCESS_MESSAGE.len();
        let s = String::from_str("HTTP/1.1 200 OK\r\ncontent-length: ");
        let s = s.concat(decimal_string(len as u64).as_str());
        let s = s.concat("\r\n\r\n");
        s.concat(OAUTH_SUCCESS_MESSAGE)
    }

    /// The warning to show where the state that came back is not the one
    /// that was sent: `None` where they are the same.
    pub fn tampering_report(expected: &str, got: &str) -> (r: Option<Vec<String>>)
        ensures
            expected@ == got@ ==> r is None,
            expected@ != got@ ==> (r matches Some(lines) && string_views(lines@) == seq![
                "Tampering involved!"@,
                "Expected: "@ + expected@,
                "Got:      "@ + got@,
            ]),
    {
        if Self::csrf_states_match(expected, got) {
            None
        } else {
            let mut lines: Vec<String> = Vec::new();
            lines.push(String::from_str("Tampering involved!"));
            lines.push(String::from_str("Expected: ").concat(expected));
            lines.push(String::from_str("Got:      ").concat(got));
            assert(string_views(lines@) =~= seq![
                "Tampering involved!"@,
                "Expected: "@ + expected@,
                "Got:      "@ + got@,
            ]);
            Some(lines)
        }
    }

    /// Whether the state that came back is the one that was sent; where
    /// it is not, the redirect may have been tampered with.
    pub fn csrf_states_match(expected: &str, got: &str) -> (r: bool)
        ensures
            r == (expected@ == got@),
    {
        String::from_str(expected) == String::from_str(got)
    }
}

} // verus!
