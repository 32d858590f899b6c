use ezpr::settings::{RPIPRSettings, SettingsLoad, SettingsSource, StartGGToken, TokenKind, DEFAULT_SETTINGS_LOC};

fn token(access: &str) -> StartGGToken {
    StartGGToken {
        access_token: access.to_string(),
        token_type: TokenKind::Bearer,
        expires_in: Some(3600),
        refresh_token: Some("refresh".to_string()),
        scopes: Some(vec!["user.identity".to_string()]),
    }
}

#[test]
fn default_settings() {
    let s = RPIPRSettings::default();
    assert_eq!(s.get_save_path(), DEFAULT_SETTINGS_LOC);
    assert_eq!(DEFAULT_SETTINGS_LOC, "rpipr.settings");
    assert!(s.get_token().is_none());
}

#[test]
fn set_token_then_get_token() {
    let s = RPIPRSettings::default();
    let s2 = s.set_token(Some(token("abc")));
    let t = s2.get_token().unwrap();
    assert_eq!(t.access_token, "abc");
    assert!(matches!(t.token_type, TokenKind::Bearer));
    assert_eq!(t.expires_in, Some(3600));
    assert_eq!(t.refresh_token.as_deref(), Some("refresh"));
    assert_eq!(t.scopes, Some(vec!["user.identity".to_string()]));
    assert_eq!(s2.get_save_path(), s.get_save_path());
    assert!(s.get_token().is_none());
}

#[test]
fn second_token_wins() {
    let s = RPIPRSettings::default().set_token(Some(token("first"))).set_token(Some(token("second")));
    assert_eq!(s.get_token().unwrap().access_token, "second");
    let s = s.set_token(None);
    assert!(s.get_token().is_none());
}

#[test]
fn settings_path_defaults() {
    assert_eq!(RPIPRSettings::settings_path(None), "rpipr.settings");
    assert_eq!(RPIPRSettings::settings_path(Some("a/b.json")), "a/b.json");
}

#[test]
fn load_missing_file_creates_settings_at_path() {
    match RPIPRSettings::load_from_file(Some("mine.settings"), SettingsSource::NotFound) {
        SettingsLoad::Created(s) => {
            assert_eq!(s.get_save_path(), "mine.settings");
            assert!(s.get_token().is_none());
        },
        _ => panic!("expected new settings"),
    }
    match RPIPRSettings::load_from_file(None, SettingsSource::NotFound) {
        SettingsLoad::Created(s) => assert_eq!(s.get_save_path(), "rpipr.settings"),
        _ => panic!("expected new settings"),
    }
}

#[test]
fn load_read_file_keeps_token_and_path() {
    match RPIPRSettings::load_from_file(None, SettingsSource::Deserialized(Some(token("tok")))) {
        SettingsLoad::Loaded(s) => {
            assert_eq!(s.get_save_path(), "rpipr.settings");
            assert_eq!(s.get_token().unwrap().access_token, "tok");
        },
        _ => panic!("expected loaded settings"),
    }
}

#[test]
fn load_errors_carry_messages() {
    match RPIPRSettings::load_from_file(None, SettingsSource::OpenFailed("Permission denied (os error 13)".to_string())) {
        SettingsLoad::Failed(m) => assert_eq!(m, "Error opening settings file: Permission denied (os error 13)"),
        _ => panic!("expected a failure"),
    }
    match RPIPRSettings::load_from_file(None, SettingsSource::DeserializeFailed("EOF while parsing".to_string())) {
        SettingsLoad::Failed(m) => assert_eq!(m, "Error deserializing settings: EOF while parsing"),
        _ => panic!("expected a failure"),
    }
}

#[test]
fn token_copy_keeps_extension_kind() {
    let mut t = token("x");
    t.token_type = TokenKind::Extension("custom".to_string());
    t.scopes = None;
    let c = t.copy();
    assert!(matches!(c.token_type, TokenKind::Extension(ref k) if k == "custom"));
    assert!(c.scopes.is_none());
}

#[test]
fn storing_the_held_token_changes_nothing() {
    let s = RPIPRSettings::default().set_token(Some(token("same")));
    let again = s.set_token(s.get_token());
    assert_eq!(again.get_token().unwrap().access_token, "same");
    assert_eq!(again.get_save_path(), s.get_save_path());
}
