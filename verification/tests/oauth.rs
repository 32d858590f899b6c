use ezpr::oauth::oauth_test_query::{self as otq, UserLoggedInStartGGQueryError};
use ezpr::oauth::{StartGGOAuth, OAUTH_SUCCESS_MESSAGE};
use ezpr::queries::user_logged_in_start_gg_query as uq;
use ezpr::queries::GraphQLResponse;

#[test]
fn redirect_uri_has_port() {
    assert_eq!(StartGGOAuth::redirect_uri(8080), "http://localhost:8080");
    assert_eq!(StartGGOAuth::redirect_uri(0), "http://localhost:0");
    assert_eq!(StartGGOAuth::redirect_uri(65535), "http://localhost:65535");
}

#[test]
fn client_parts_for_startgg() {
    let parts = StartGGOAuth::client_parts(8080, "id".to_string(), "secret".to_string());
    assert_eq!(parts.auth_url, "https://start.gg/oauth/authorize");
    assert_eq!(parts.token_url, "https://api.start.gg/oauth/access_token");
    assert_eq!(parts.redirect_url, "http://localhost:8080");
    assert_eq!(parts.client_id, "id");
    assert_eq!(parts.client_secret, "secret");
    assert_eq!(parts.scopes, vec!["user.identity".to_string()]);
}

#[test]
fn tampering_report_lines() {
    assert!(StartGGOAuth::tampering_report("abc", "abc").is_none());
    assert_eq!(
        StartGGOAuth::tampering_report("abc", "xyz").unwrap(),
        vec!["Tampering involved!".to_string(), "Expected: abc".to_string(), "Got:      xyz".to_string()]
    );
}

#[test]
fn parse_redirect_line() {
    let p = StartGGOAuth::parse_redirect_request("GET /?code=abc123&state=xyz HTTP/1.1\r\n").unwrap();
    assert_eq!(p.code, "abc123");
    assert_eq!(p.state, "xyz");
}

#[test]
fn parse_redirect_decodes_and_takes_first() {
    let p = StartGGOAuth::parse_redirect_request("GET  /?state=s%20t&code=a+b&code=second HTTP/1.1").unwrap();
    assert_eq!(p.code, "a b");
    assert_eq!(p.state, "s t");
}

#[test]
fn parse_redirect_failures() {
    assert!(StartGGOAuth::parse_redirect_request("").is_none());
    assert!(StartGGOAuth::parse_redirect_request("GET").is_none());
    assert!(StartGGOAuth::parse_redirect_request("GET /?code=abc HTTP/1.1").is_none());
    assert!(StartGGOAuth::parse_redirect_request("GET /?state=abc HTTP/1.1").is_none());
    assert!(StartGGOAuth::parse_redirect_request("GET :bad:[ HTTP/1.1").is_none());
}

#[test]
fn redirect_response_text() {
    let r = StartGGOAuth::redirect_response();
    assert_eq!(
        r,
        format!("HTTP/1.1 200 OK\r\ncontent-length: {}\r\n\r\n{}", OAUTH_SUCCESS_MESSAGE.len(), OAUTH_SUCCESS_MESSAGE)
    );
    assert!(r.starts_with("HTTP/1.1 200 OK\r\ncontent-length: 83\r\n\r\n<!DOCTYPE html>"));
}

#[test]
fn csrf_comparison() {
    assert!(StartGGOAuth::csrf_states_match("abc", "abc"));
    assert!(!StartGGOAuth::csrf_states_match("abc", "abd"));
    assert!(!StartGGOAuth::csrf_states_match("abc", ""));
}

#[test]
fn test_query_reads_tag_and_first_image() {
    let resp = GraphQLResponse {
        data: Some(uq::ResponseData {
            current_user: Some(uq::CurrentUser {
                player: Some(uq::Player { gamer_tag: Some("aMSa".to_string()) }),
                images: Some(vec![Some(uq::Image { url: Some("https://img/p.png".to_string()) })]),
            }),
        }),
    };
    let (name, url) = otq::get_startgg_user_and_profile_icon(resp).unwrap();
    assert_eq!(name, "aMSa");
    assert_eq!(url, "https://img/p.png");
}

#[test]
fn test_query_errors() {
    let resp: GraphQLResponse<uq::ResponseData> = GraphQLResponse { data: None };
    let e: UserLoggedInStartGGQueryError = otq::get_startgg_user_and_profile_icon(resp).unwrap_err();
    assert_eq!(e.message(), "`data` does not exist in query.");
    let resp = GraphQLResponse { data: Some(uq::ResponseData { current_user: None }) };
    let e = otq::get_startgg_user_and_profile_icon(resp).unwrap_err();
    assert_eq!(e.0, "`currentUser` does not exist in query.");
    let body = otq::UserLoggedInStartGGQuery::build_query(uq::Variables);
    assert_eq!(body.operation_name, "UserLoggedInStartGGQuery");
}

#[test]
fn authorization_url_for_a_state() {
    let (url, state, parts) =
        StartGGOAuth::authorization_for(8080, "my-id".to_string(), "my-secret".to_string(), "abc".to_string()).unwrap();
    assert_eq!(
        url,
        "https://start.gg/oauth/authorize?response_type=code&client_id=my-id&state=abc&redirect_uri=http%3A%2F%2Flocalhost%3A8080&scope=user.identity"
    );
    assert_eq!(state, "abc");
    assert_eq!(parts.client_secret, "my-secret");
    assert_eq!(parts.redirect_url, "http://localhost:8080");
}

#[test]
fn sign_in_draws_a_fresh_state() {
    let (url, state, parts) = StartGGOAuth::get_oauth_token(9000, "id".to_string(), "secret".to_string()).unwrap();
    let (url2, state2, _) = StartGGOAuth::get_oauth_token(9000, "id".to_string(), "secret".to_string()).unwrap();
    assert!(!state.is_empty());
    assert_ne!(state, state2);
    assert!(url.starts_with("https://start.gg/oauth/authorize?response_type=code&client_id=id&state="));
    assert!(url.contains(&format!("state={state}&")));
    assert!(url2.contains(&format!("state={state2}&")));
    assert!(url.ends_with("&redirect_uri=http%3A%2F%2Flocalhost%3A9000&scope=user.identity"));
    assert_eq!(parts.token_url, "https://api.start.gg/oauth/access_token");
}
