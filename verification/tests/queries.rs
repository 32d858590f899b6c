use ezpr::queries::get_startgg_user_info::{get_startgg_user_and_profile_icon, UserLoggedInStartGGQuery};
use ezpr::queries::get_tournament_information::{
    check_event_fields, get_tournament_and_event_info, tournament_query_body, TournamentInformationQuery,
};
use ezpr::queries::tournament_information_query::{self as tq};
use ezpr::queries::user_logged_in_start_gg_query::{self as uq, check_user_fields};
use ezpr::queries::{GraphQLResponse, QueryError, STARTGG_ENDPOINT};

fn user(tag: &str, images: Option<Vec<Option<Option<&str>>>>) -> uq::CurrentUser {
    uq::CurrentUser {
        player: Some(uq::Player { gamer_tag: Some(tag.to_string()) }),
        images: images.map(|v| v.into_iter().map(|i| i.map(|u| uq::Image { url: u.map(|s| s.to_string()) })).collect()),
    }
}

#[test]
fn user_info_with_picture() {
    let resp = GraphQLResponse {
        data: Some(uq::ResponseData {
            current_user: Some(user("Leffen", Some(vec![Some(Some("https://img/1.png")), Some(Some("https://img/2.png"))]))),
        }),
    };
    let info = get_startgg_user_and_profile_icon(resp).unwrap();
    assert_eq!(info.username, "Leffen");
    assert_eq!(info.pfp_url.as_deref(), Some("https://img/1.png"));
}

#[test]
fn user_info_without_picture() {
    let resp = GraphQLResponse { data: Some(uq::ResponseData { current_user: Some(user("Plup", Some(vec![None]))) }) };
    let info = get_startgg_user_and_profile_icon(resp).unwrap();
    assert_eq!(info.username, "Plup");
    assert_eq!(info.pfp_url, None);
}

#[test]
fn user_info_errors() {
    let resp: GraphQLResponse<uq::ResponseData> = GraphQLResponse { data: None };
    let e = get_startgg_user_and_profile_icon(resp).unwrap_err();
    assert_eq!(e, QueryError::MissingData);
    assert_eq!(e.message(), "`data` does not exist in query.");
    let resp = GraphQLResponse { data: Some(uq::ResponseData { current_user: None }) };
    let e = get_startgg_user_and_profile_icon(resp).unwrap_err();
    assert_eq!(e, QueryError::MissingCurrentUser);
    assert_eq!(e.message(), "`currentUser` does not exist in query.");
}

#[test]
fn user_fields_check() {
    assert!(check_user_fields(&user("a", Some(vec![None]))));
    assert!(check_user_fields(&user("a", Some(vec![Some(Some("u"))]))));
    assert!(!check_user_fields(&user("a", Some(vec![Some(None)]))));
    assert!(!check_user_fields(&user("a", Some(vec![]))));
    assert!(!check_user_fields(&user("a", None)));
    let no_player = uq::CurrentUser { player: None, images: Some(vec![None]) };
    assert!(!check_user_fields(&no_player));
}

#[test]
fn user_query_body() {
    let body = UserLoggedInStartGGQuery::build_query(uq::Variables);
    assert_eq!(body.operation_name, "UserLoggedInStartGGQuery");
    assert!(body.query.starts_with("query UserLoggedInStartGGQuery"));
    assert!(body.query.contains("gamerTag"));
    assert_eq!(STARTGG_ENDPOINT, "https://api.start.gg/gql/alpha");
}

fn event(name: Option<&str>, n: Option<i64>, t: Option<Option<&str>>) -> tq::Event {
    tq::Event {
        name: name.map(|s| s.to_string()),
        num_entrants: n,
        tournament: t.map(|t| tq::Tournament { name: t.map(|s| s.to_string()) }),
    }
}

#[test]
fn tournament_info() {
    let resp = GraphQLResponse {
        data: Some(tq::ResponseData { event: Some(event(Some("Melee Singles"), Some(1000), Some(Some("Genesis 10")))) }),
    };
    let info = get_tournament_and_event_info(resp).unwrap();
    assert_eq!(info.get_tournament_name(), "Genesis 10");
    assert_eq!(info.get_event_name(), "Melee Singles");
    assert_eq!(info.get_num_entrants(), 1000);
}

#[test]
fn tournament_info_errors() {
    let resp: GraphQLResponse<tq::ResponseData> = GraphQLResponse { data: None };
    assert_eq!(get_tournament_and_event_info(resp).unwrap_err(), QueryError::MissingData);
    let resp = GraphQLResponse { data: Some(tq::ResponseData { event: None }) };
    let e = get_tournament_and_event_info(resp).unwrap_err();
    assert_eq!(e, QueryError::MissingEvent);
    assert_eq!(e.message(), "`event` does not exist in query.");
    let resp = GraphQLResponse { data: Some(tq::ResponseData { event: Some(event(None, None, None)) }) };
    let e = get_tournament_and_event_info(resp).unwrap_err();
    assert_eq!(e, QueryError::MissingTournament);
    assert_eq!(e.message(), "`tournament` does not exist in query.");
}

#[test]
fn event_fields_check() {
    assert!(check_event_fields(&event(None, None, None)));
    assert!(check_event_fields(&event(Some("e"), Some(1), Some(Some("t")))));
    assert!(!check_event_fields(&event(Some("e"), Some(1), Some(None))));
    assert!(!check_event_fields(&event(None, Some(1), Some(Some("t")))));
    assert!(!check_event_fields(&event(Some("e"), None, Some(Some("t")))));
}

#[test]
fn tournament_query_bodies() {
    let body = tournament_query_body("tournament/genesis-10/event/melee-singles");
    assert_eq!(body.variables.event_slug.as_deref(), Some("tournament/genesis-10/event/melee-singles"));
    assert_eq!(body.operation_name, "TournamentInformationQuery");
    assert!(body.query.contains("$eventSlug"));
    let body = TournamentInformationQuery::build_query(tq::Variables { event_slug: None });
    assert!(body.variables.event_slug.is_none());
}
