use ezpr::ezpr_file_format::tables::itabledesc::{build_create_table_command, RowReadError, SqlRow, SqlValue};
use ezpr::ezpr_file_format::tables::players::{PlayerTable, PlayerTableRow};
use ezpr::ezpr_file_format::tables::{
    AliasesTable, AliasesTableRow, PlacementsTable, PlacementsTableRow, PlayersTable, PlayersTableRow,
    TournamentsTable, TournamentsTableRow,
};

fn row(columns: Vec<(&str, SqlValue)>) -> SqlRow {
    SqlRow { columns: columns.into_iter().map(|(n, v)| (n.to_string(), v)).collect() }
}

#[test]
fn players_create_table_command() {
    assert_eq!(
        PlayersTable::get_create_table_command(),
        "CREATE TABLE Players ( player_id INTEGER PRIMARY KEY AUTOINCREMENT, player_tag VARCHAR(30));"
    );
}

#[test]
fn tournaments_create_table_command() {
    assert_eq!(
        TournamentsTable::get_create_table_command(),
        "CREATE TABLE Tournaments ( tournament_id INTEGER PRIMARY KEY AUTOINCREMENT, tournament_name VARCHAR(100), num_entrants INTEGER);"
    );
}

#[test]
fn aliases_create_table_command() {
    assert_eq!(
        AliasesTable::get_create_table_command(),
        "CREATE TABLE Aliases ( orig_player_id INTEGER, alias VARCHAR(30));"
    );
}

#[test]
fn placements_create_table_command() {
    assert_eq!(
        PlacementsTable::get_create_table_command(),
        "CREATE TABLE Placements ( player_id INTEGER, tournament_id INTEGER, placement INTEGER);"
    );
}

#[test]
fn player_create_table_command() {
    assert_eq!(
        PlayerTable::get_create_table_command(),
        "CREATE TABLE Player ( player_id INTEGER PRIMARY KEY AUTOINCREMENT, player_tag VARCHAR(30));"
    );
}

#[test]
fn create_table_command_without_columns() {
    assert_eq!(build_create_table_command("Empty", &[]), "CREATE TABLE Empty ();");
}

#[test]
fn table_and_column_names() {
    assert_eq!(PlayersTable::get_table_name(), "Players");
    assert_eq!(PlayersTable::get_player_id_name(), "player_id");
    assert_eq!(PlayersTable::get_player_tag_name(), "player_tag");
    assert_eq!(TournamentsTable::get_table_name(), "Tournaments");
    assert_eq!(TournamentsTable::get_num_entrants_name(), "num_entrants");
    assert_eq!(AliasesTable::get_alias_name(), "alias");
    assert_eq!(AliasesTable::get_orig_player_id_name(), "orig_player_id");
    assert_eq!(PlacementsTable::get_placement_name(), "placement");
    assert_eq!(PlayerTable::get_table_name(), "Player");
}

#[test]
fn players_row_reads_back_its_values() {
    let r = row(vec![("player_id", SqlValue::Integer(7)), ("player_tag", SqlValue::String("Mango".to_string()))]);
    let p = PlayersTableRow::try_from_row(&r).unwrap();
    assert_eq!(*p.get_player_id(), 7);
    assert_eq!(p.get_player_tag(), "Mango");
}

#[test]
fn row_columns_are_found_by_name_in_any_order() {
    let r = row(vec![("player_tag", SqlValue::String("Zain".to_string())), ("player_id", SqlValue::Integer(-3))]);
    let p = PlayerTableRow::try_from_row(&r).unwrap();
    assert_eq!(*p.get_player_id(), -3);
    assert_eq!(p.get_player_tag(), "Zain");
}

#[test]
fn row_missing_column_is_out_of_range() {
    let r = row(vec![("player_id", SqlValue::Integer(7))]);
    match PlayersTableRow::try_from_row(&r) {
        Err(RowReadError::IndexOutOfRange(c)) => assert_eq!(c, "player_tag"),
        _ => panic!("expected an out-of-range error"),
    }
}

#[test]
fn row_first_failing_column_decides_the_error() {
    let r = row(vec![("player_id", SqlValue::Null)]);
    assert!(matches!(PlayersTableRow::try_from_row(&r), Err(RowReadError::FailedToConvert)));
}

#[test]
fn row_wrong_type_fails_to_convert() {
    let r = row(vec![("player_id", SqlValue::String("7".to_string())), ("player_tag", SqlValue::String("x".to_string()))]);
    assert!(matches!(PlayersTableRow::try_from_row(&r), Err(RowReadError::FailedToConvert)));
    let r = row(vec![("player_id", SqlValue::Integer(1)), ("player_tag", SqlValue::Integer(2))]);
    assert!(matches!(PlayersTableRow::try_from_row(&r), Err(RowReadError::FailedToConvert)));
    let r = row(vec![("player_id", SqlValue::Float), ("player_tag", SqlValue::Binary(vec![1]))]);
    assert!(matches!(PlayersTableRow::try_from_row(&r), Err(RowReadError::FailedToConvert)));
}

#[test]
fn last_column_of_a_name_is_read() {
    let r = row(vec![("alias", SqlValue::String("a".to_string())), ("orig_player_id", SqlValue::Integer(1)), ("alias", SqlValue::String("b".to_string()))]);
    let a = AliasesTableRow::try_from_row(&r).unwrap();
    assert_eq!(a.get_alias(), "b");
    assert_eq!(*a.get_orig_player_id(), 1);
}

#[test]
fn tournaments_and_placements_rows() {
    let r = row(vec![
        ("tournament_id", SqlValue::Integer(3)),
        ("tournament_name", SqlValue::String("Genesis".to_string())),
        ("num_entrants", SqlValue::Integer(512)),
    ]);
    let t = TournamentsTableRow::try_from_row(&r).unwrap();
    assert_eq!(*t.get_tournament_id(), 3);
    assert_eq!(t.get_tournament_name(), "Genesis");
    assert_eq!(*t.get_num_entrants(), 512);

    let r = row(vec![
        ("player_id", SqlValue::Integer(1)),
        ("tournament_id", SqlValue::Integer(3)),
        ("placement", SqlValue::Integer(9)),
    ]);
    let p = PlacementsTableRow::try_from_row(&r).unwrap();
    assert_eq!((*p.get_player_id(), *p.get_tournament_id(), *p.get_placement()), (1, 3, 9));
}

#[test]
fn read_integer_and_text_directly() {
    let r = row(vec![("n", SqlValue::Integer(i64::MIN)), ("s", SqlValue::String(String::new()))]);
    assert_eq!(r.try_read_integer("n"), Ok(i64::MIN));
    assert_eq!(r.try_read_text("s"), Ok(String::new()));
    assert_eq!(r.try_read_text("n"), Err(RowReadError::FailedToConvert));
    assert_eq!(r.try_read_integer("q"), Err(RowReadError::IndexOutOfRange("q".to_string())));
    assert_eq!(r.find_column("s"), Some(1));
    assert_eq!(r.find_column("t"), None);
}
