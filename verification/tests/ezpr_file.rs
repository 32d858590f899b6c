use std::time::{SystemTime, UNIX_EPOCH};

use ezpr::ezpr_file_format::database::quote_sql_text;
use ezpr::ezpr_file_format::{make_save_statement, EZPRError, EZPRFile, EZPRFileSlot, IEZPRFile, CLEAR_DATABASE_STATEMENT};

fn fresh_path(tag: &str) -> String {
    let nanos = SystemTime::now().duration_since(UNIX_EPOCH).unwrap().as_nanos();
    format!("/tmp/ezpr_test_{tag}_{nanos}.ezpr")
}

fn has_players_table(path: &str) -> bool {
    let conn = sqlite::open(path).unwrap();
    let mut count = 0;
    conn.iterate("SELECT name FROM sqlite_master WHERE type = 'table' AND name = 'Players'", |_| {
        count += 1;
        true
    })
    .unwrap();
    count == 1
}

#[test]
fn new_in_memory_file_is_loaded_then_closed() {
    let mut instance: Option<EZPRFile> = None;
    assert!(!EZPRFile::is_file_loaded(&instance));
    EZPRFile::new_file(&mut instance, ":memory:").unwrap();
    assert!(EZPRFile::is_file_loaded(&instance));
    assert_eq!(instance.as_ref().unwrap().get_filename(), ":memory:");
    EZPRFile::close_file(&mut instance).unwrap();
    assert!(!EZPRFile::is_file_loaded(&instance));
}

#[test]
fn load_refused_when_file_check_failed() {
    let mut instance: Option<EZPRFile> = None;
    match EZPRFile::load_file(&mut instance, "missing.ezpr", Err("No such file or directory (os error 2)".to_string())) {
        Err(EZPRError::FileNotAccessible(m)) => assert_eq!(m, "No such file or directory (os error 2)"),
        _ => panic!("expected the file check's error"),
    }
    assert!(instance.is_none());
}

#[test]
fn failed_load_keeps_current_file() {
    let mut instance: Option<EZPRFile> = None;
    EZPRFile::new_file(&mut instance, ":memory:").unwrap();
    assert!(EZPRFile::load_file(&mut instance, "other.ezpr", Err("denied".to_string())).is_err());
    assert_eq!(instance.as_ref().unwrap().get_filename(), ":memory:");
}

#[test]
fn load_replaces_current_file() {
    let mut instance: Option<EZPRFile> = None;
    EZPRFile::new_file(&mut instance, ":memory:").unwrap();
    EZPRFile::load_file(&mut instance, "", Ok(())).unwrap();
    assert_eq!(instance.as_ref().unwrap().get_filename(), "");
}

#[test]
fn new_file_creates_the_players_table_on_disk() {
    let path = "/tmp/ezpr_test_new_file_creates_players.ezpr";
    let mut instance: Option<EZPRFile> = None;
    EZPRFile::new_file(&mut instance, path).unwrap();
    EZPRFile::close_file(&mut instance).unwrap();

    assert!(has_players_table(path));
    let conn = sqlite::open(path).unwrap();
    let mut names = Vec::new();
    conn.iterate("SELECT name FROM sqlite_master WHERE type = 'table' AND name = 'Players'", |pairs| {
        for (_, v) in pairs.iter() {
            names.push(v.unwrap().to_string());
        }
        true
    })
    .unwrap();
    assert_eq!(names, vec!["Players".to_string()]);
    conn.execute("INSERT INTO Players (player_tag) VALUES ('Hbox');").unwrap();
}

#[test]
fn new_file_clears_an_existing_database() {
    let path = "/tmp/ezpr_test_new_file_clears.ezpr";
    {
        let conn = sqlite::open(path).unwrap();
        conn.execute("CREATE TABLE IF NOT EXISTS Leftover (x INTEGER);").unwrap();
    }
    let mut instance: Option<EZPRFile> = None;
    EZPRFile::new_file(&mut instance, path).unwrap();
    EZPRFile::close_file(&mut instance).unwrap();
    let conn = sqlite::open(path).unwrap();
    let mut count = 0;
    conn.iterate("SELECT name FROM sqlite_master WHERE name = 'Leftover'", |_| {
        count += 1;
        true
    })
    .unwrap();
    assert_eq!(count, 0);
}

#[test]
fn new_file_fails_on_unopenable_path() {
    let mut instance: Option<EZPRFile> = None;
    let r = EZPRFile::new_file(&mut instance, "/nonexistent-directory-for-ezpr/x/y.ezpr");
    assert!(matches!(r, Err(EZPRError::Sqlite(_))));
    assert!(instance.is_none());
}

#[test]
fn save_file_without_open_file_is_ok() {
    let mut instance: Option<EZPRFile> = None;
    assert!(EZPRFile::save_file(&mut instance, "x.ezpr").is_ok());
    assert!(instance.is_none());
}

#[test]
fn save_file_to_own_path_is_ok() {
    let mut instance: Option<EZPRFile> = None;
    EZPRFile::new_file(&mut instance, ":memory:").unwrap();
    assert!(EZPRFile::save_file(&mut instance, ":memory:").is_ok());
    assert_eq!(instance.as_ref().unwrap().get_filename(), ":memory:");
}

#[test]
fn save_file_copies_to_another_path() {
    let source = fresh_path("save_source");
    let target = fresh_path("it's_a_copy");
    let mut instance: Option<EZPRFile> = None;
    EZPRFile::new_file(&mut instance, &source).unwrap();
    EZPRFile::save_file(&mut instance, &target).unwrap();
    assert_eq!(instance.as_ref().unwrap().get_filename(), &source);
    assert!(has_players_table(&target));
    // SQLite does not write over a file that is not empty.
    assert!(matches!(EZPRFile::save_file(&mut instance, &target), Err(EZPRError::Sqlite(_))));
    assert_eq!(instance.as_ref().unwrap().get_filename(), &source);
}

#[test]
fn save_statement_quotes_the_path() {
    assert_eq!(quote_sql_text("it's"), "'it''s'");
    assert_eq!(quote_sql_text(""), "''");
    assert_eq!(make_save_statement("/tmp/a'b.ezpr"), "VACUUM INTO '/tmp/a''b.ezpr'");
}

#[test]
fn slot_is_loaded_until_closed() {
    let mut slot = EZPRFileSlot::new();
    assert!(!slot.is_file_loaded());
    assert!(slot.load_file("x.ezpr", Err("missing".to_string())).is_err());
    assert!(!slot.is_file_loaded());
    slot.new_file(":memory:").unwrap();
    assert!(slot.is_file_loaded());
    assert!(slot.save_file(":memory:").is_ok());
    assert!(slot.load_file("x.ezpr", Err("missing".to_string())).is_err());
    assert!(slot.is_file_loaded());
    assert_eq!(slot.current_file().as_ref().unwrap().get_filename(), ":memory:");
    slot.close_file().unwrap();
    assert!(!slot.is_file_loaded());
    assert!(slot.save_file("x.ezpr").is_ok());
    assert!(!slot.is_file_loaded());
    slot.load_file(":memory:", Ok(())).unwrap();
    assert!(slot.is_file_loaded());
}

#[test]
fn clear_statement_text() {
    assert!(CLEAR_DATABASE_STATEMENT.contains("DELETE FROM sqlite_master;"));
    assert!(CLEAR_DATABASE_STATEMENT.contains("PRAGMA writable_schema = 1;"));
}

#[test]
fn loaded_until_closed() {
    let mut instance: Option<EZPRFile> = None;
    assert!(EZPRFile::load_file(&mut instance, "x.ezpr", Err("missing".to_string())).is_err());
    assert!(!EZPRFile::is_file_loaded(&instance));
    EZPRFile::new_file(&mut instance, ":memory:").unwrap();
    assert!(EZPRFile::load_file(&mut instance, "x.ezpr", Err("missing".to_string())).is_err());
    assert!(EZPRFile::save_file(&mut instance, ":memory:").is_ok());
    assert!(EZPRFile::is_file_loaded(&instance));
    EZPRFile::close_file(&mut instance).unwrap();
    assert!(!EZPRFile::is_file_loaded(&instance));
    EZPRFile::load_file(&mut instance, ":memory:", Ok(())).unwrap();
    assert!(EZPRFile::is_file_loaded(&instance));
}

#[test]
fn load_file_leaves_contents_alone() {
    let path = "/tmp/ezpr_test_load_keeps_contents.ezpr";
    {
        let conn = sqlite::open(path).unwrap();
        conn.execute("CREATE TABLE IF NOT EXISTS Kept (x INTEGER);").unwrap();
    }
    let mut instance: Option<EZPRFile> = None;
    EZPRFile::load_file(&mut instance, path, Ok(())).unwrap();
    EZPRFile::close_file(&mut instance).unwrap();
    let conn = sqlite::open(path).unwrap();
    let mut count = 0;
    conn.iterate("SELECT name FROM sqlite_master WHERE name = 'Kept'", |_| {
        count += 1;
        true
    })
    .unwrap();
    assert_eq!(count, 1);
}
