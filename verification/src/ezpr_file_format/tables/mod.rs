//! The tables of the EZPR file format.
pub mod itabledesc;
pub mod players;

use vstd::prelude::*;

use self::itabledesc::{
    build_create_table_command, column_views, create_table_command, distinct_column_names, integer_cell,
    law_read_back_column, read_error_matches, text_cell, CellRead, RowReadError, SqlRow, SqlValue,
};

verus! {

/// Description of the `Players` table.
///
/// Holds all the player data: the player's unique identifier (exclusive
/// to the database) and the player's tag (primary name).
pub struct PlayersTable {}

impl PlayersTable {
    /// The name of column `player_id`.
    pub fn get_player_id_name() -> (r: &'static str)
        ensures
            r@ == "player_id"@,
    {
        "player_id"
    }

    /// The name of column `player_tag`.
    pub fn get_player_tag_name() -> (r: &'static str)
        ensures
            r@ == "player_tag"@,
    {
        "player_tag"
    }

    /// The name of the table.
    pub fn get_table_name() -> (r: &'static str)
        ensures
            r@ == "Players"@,
    {
        "Players"
    }

    /// The columns of the table: each name with its SQL type.
    pub open spec fn columns() -> Seq<(Seq<char>, Seq<char>)> {
        seq![("player_id"@, "INTEGER PRIMARY KEY AUTOINCREMENT"@), ("player_tag"@, "VARCHAR(30)"@)]
    }

    /// The statement that creates the table.
    pub fn get_create_table_command() -> (s: String)
        ensures
            s@ == create_table_command("Players"@, Self::columns()),
    {
        let columns = vec![("player_id", "INTEGER PRIMARY KEY AUTOINCREMENT"), ("player_tag", "VARCHAR(30)")];
        proof {
            assert(column_views(columns@) =~= Self::columns());
        }
        build_create_table_command("Players", columns.as_slice())
    }
}

/// One row of the `Players` table.
pub struct PlayersTableRow {
    player_id: i64,
    player_tag: String,
}

impl PlayersTableRow {
    /// The row's `player_id`, for contracts.
    pub closed spec fn player_id(self) -> i64 {
        self.player_id
    }

    /// The row's `player_tag`, for contracts.
    pub closed spec fn player_tag(self) -> Seq<char> {
        self.player_tag@
    }

    /// The row's `player_id`.
    pub fn get_player_id(&self) -> (r: &i64)
        ensures
            *r == self.player_id(),
    {
        &self.player_id
    }

    /// The row's `player_tag`.
    pub fn get_player_tag(&self) -> (r: &String)
        ensures
            r@ == self.player_tag(),
    {
        &self.player_tag
    }

    /// Reads a row of the table from a query result, column by column in
    /// the order of the description; the first column that cannot be read
    /// decides the error.
    pub fn try_from_row(value: &SqlRow) -> (r: Result<Self, RowReadError>)
        ensures
            match integer_cell(*value, "player_id"@) {
                CellRead::Value(x0) => match text_cell(*value, "player_tag"@) {
                    CellRead::Value(x1) => (r matches Ok(row) && row.player_id() == x0 && row.player_tag() == x1),
                    o => (r matches Err(e) && read_error_matches(o, "player_tag"@, e)),
                },
                o => (r matches Err(e) && read_error_matches(o, "player_id"@, e)),
            },
    {
        let player_id: i64 = match value.try_read_integer("player_id") {
            Ok(x) => x,
            Err(e) => return Err(e),
        };
        let player_tag: String = match value.try_read_text("player_tag") {
            Ok(x) => x,
            Err(e) => return Err(e),
        };
        Ok(PlayersTableRow { player_id, player_tag })
    }
}

/// Description of the `Tournaments` table.
pub struct TournamentsTable {}

impl TournamentsTable {
    /// The name of column `tournament_id`.
    pub fn get_tournament_id_name() -> (r: &'static str)
        ensures
            r@ == "tournament_id"@,
    {
        "tournament_id"
    }

    /// The name of column `tournament_name`.
    pub fn get_tournament_name_name() -> (r: &'static str)
        ensures
            r@ == "tournament_name"@,
    {
        "tournament_name"
    }

    /// The name of column `num_entrants`.
    pub fn get_num_entrants_name() -> (r: &'static str)
        ensures
            r@ == "num_entrants"@,
    {
        "num_entrants"
    }

    /// The name of the table.
    pub fn get_table_name() -> (r: &'static str)
        ensures
            r@ == "Tournaments"@,
    {
        "Tournaments"
    }

    /// The columns of the table: each name with its SQL type.
    pub open spec fn columns() -> Seq<(Seq<char>, Seq<char>)> {
        seq![("tournament_id"@, "INTEGER PRIMARY KEY AUTOINCREMENT"@), ("tournament_name"@, "VARCHAR(100)"@), ("num_entrants"@, "INTEGER"@)]
    }

    /// The statement that creates the table.
    pub fn get_create_table_command() -> (s: String)
        ensures
            s@ == create_table_command("Tournaments"@, Self::columns()),
    {
        let columns = vec![("tournament_id", "INTEGER PRIMARY KEY AUTOINCREMENT"), ("tournament_name", "VARCHAR(100)"), ("num_entrants", "INTEGER")];
        proof {
            assert(column_views(columns@) =~= Self::columns());
        }
        build_create_table_command("Tournaments", columns.as_slice())
    }
}

/// One row of the `Tournaments` table.
pub struct TournamentsTableRow {
    tournament_id: i64,
    tournament_name: String,
    num_entrants: i64,
}

impl TournamentsTableRow {
    /// The row's `tournament_id`, for contracts.
    pub closed spec fn tournament_id(self) -> i64 {
        self.tournament_id
    }

    /// The row's `tournament_name`, for contracts.
    pub closed spec fn tournament_name(self) -> Seq<char> {
        self.tournament_name@
    }

    /// The row's `num_entrants`, for contracts.
    pub closed spec fn num_entrants(self) -> i64 {
        self.num_entrants
    }

    /// The row's `tournament_id`.
    pub fn get_tournament_id(&self) -> (r: &i64)
        ensures
            *r == self.tournament_id(),
    {
        &self.tournament_id
    }

    /// The row's `tournament_name`.
    pub fn get_tournament_name(&self) -> (r: &String)
        ensures
            r@ == self.tournament_name(),
    {
        &self.tournament_name
    }

    /// The row's `num_entrants`.
    pub fn get_num_entrants(&self) -> (r: &i64)
        ensures
            *r == self.num_entrants(),
    {
        &self.num_entrants
    }

    /// Reads a row of the table from a query result, column by column in
    /// the order of the description; the first column that cannot be read
    /// decides the error.
    pub fn try_from_row(value: &SqlRow) -> (r: Result<Self, RowReadError>)
        ensures
            match integer_cell(*value, "tournament_id"@) {
                CellRead::Value(x0) => match text_cell(*value, "tournament_name"@) {
                    CellRead::Value(x1) => match integer_cell(*value, "num_entrants"@) {
                        CellRead::Value(x2) => (r matches Ok(row) && row.tournament_id() == x0 && row.tournament_name() == x1 && row.num_entrants() == x2),
                        o => (r matches Err(e) && read_error_matches(o, "num_entrants"@, e)),
                    },
                    o => (r matches Err(e) && read_error_matches(o, "tournament_name"@, e)),
                },
                o => (r matches Err(e) && read_error_matches(o, "tournament_id"@, e)),
            },
    {
        let tournament_id: i64 = match value.try_read_integer("tournament_id") {
            Ok(x) => x,
            Err(e) => return Err(e),
        };
        let tournament_name: String = match value.try_read_text("tournament_name") {
            Ok(x) => x,
            Err(e) => return Err(e),
        };
        let num_entrants: i64 = match value.try_read_integer("num_entrants") {
            Ok(x) => x,
            Err(e) => return Err(e),
        };
        Ok(TournamentsTableRow { tournament_id, tournament_name, num_entrants })
    }
}

/// Description of the `Aliases` table.
pub struct AliasesTable {}

impl AliasesTable {
    /// The name of column `orig_player_id`.
    pub fn get_orig_player_id_name() -> (r: &'static str)
        ensures
            r@ == "orig_player_id"@,
    {
        "orig_player_id"
    }

    /// The name of column `alias`.
    pub fn get_alias_name() -> (r: &'static str)
        ensures
            r@ == "alias"@,
    {
        "alias"
    }

    /// The name of the table.
    pub fn get_table_name() -> (r: &'static str)
        ensures
            r@ == "Aliases"@,
    {
        "Aliases"
    }

    /// The columns of the table: each name with its SQL type.
    pub open spec fn columns() -> Seq<(Seq<char>, Seq<char>)> {
        seq![("orig_player_id"@, "INTEGER"@), ("alias"@, "VARCHAR(30)"@)]
    }

    /// The statement that creates the table.
    pub fn get_create_table_command() -> (s: String)
        ensures
            s@ == create_table_command("Aliases"@, Self::columns()),
    {
        let columns = vec![("orig_player_id", "INTEGER"), ("alias", "VARCHAR(30)")];
        proof {
            assert(column_views(columns@) =~= Self::columns());
        }
        build_create_table_command("Aliases", columns.as_slice())
    }
}

/// One row of the `Aliases` table.
pub struct AliasesTableRow {
    orig_player_id: i64,
    alias: String,
}

impl AliasesTableRow {
    /// The row's `orig_player_id`, for contracts.
    pub closed spec fn orig_player_id(self) -> i64 {
        self.orig_player_id
    }

    /// The row's `alias`, for contracts.
    pub closed spec fn alias(self) -> Seq<char> {
        self.alias@
    }

    /// The row's `orig_player_id`.
    pub fn get_orig_player_id(&self) -> (r: &i64)
        ensures
            *r == self.orig_player_id(),
    {
        &self.orig_player_id
    }

    /// The row's `alias`.
    pub fn get_alias(&self) -> (r: &String)
        ensures
            r@ == self.alias(),
    {
        &self.alias
    }

    /// Reads a row of the table from a query result, column by column in
    /// the order of the description; the first column that cannot be read
    /// decides the error.
    pub fn try_from_row(value: &SqlRow) -> (r: Result<Self, RowReadError>)
        ensures
            match integer_cell(*value, "orig_player_id"@) {
                CellRead::Value(x0) => match text_cell(*value, "alias"@) {
                    CellRead::Value(x1) => (r matches Ok(row) && row.orig_player_id() == x0 && row.alias() == x1),
                    o => (r matches Err(e) && read_error_matches(o, "alias"@, e)),
                },
                o => (r matches Err(e) && read_error_matches(o, "orig_player_id"@, e)),
            },
    {
        let orig_player_id: i64 = match value.try_read_integer("orig_player_id") {
            Ok(x) => x,
            Err(e) => return Err(e),
        };
        let alias: String = match value.try_read_text("alias") {
            Ok(x) => x,
            Err(e) => return Err(e),
        };
        Ok(AliasesTableRow { orig_player_id, alias })
    }
}

/// Description of the `Placements` table.
pub struct PlacementsTable {}

impl PlacementsTable {
    /// The name of column `player_id`.
    pub fn get_player_id_name() -> (r: &'static str)
        ensures
            r@ == "player_id"@,
    {
        "player_id"
    }

    /// The name of column `tournament_id`.
    pub fn get_tournament_id_name() -> (r: &'static str)
        ensures
            r@ == "tournament_id"@,
    {
        "tournament_id"
    }

    /// The name of column `placement`.
    pub fn get_placement_name() -> (r: &'static str)
        ensures
            r@ == "placement"@,
    {
        "placement"
    }

    /// The name of the table.
    pub fn get_table_name() -> (r: &'static str)
        ensures
            r@ == "Placements"@,
    {
        "Placements"
    }

    /// The columns of the table: each name with its SQL type.
    pub open spec fn columns() -> Seq<(Seq<char>, Seq<char>)> {
        seq![("player_id"@, "INTEGER"@), ("tournament_id"@, "INTEGER"@), ("placement"@, "INTEGER"@)]
    }

    /// The statement that creates the table.
    pub fn get_create_table_command() -> (s: String)
        ensures
            s@ == create_table_command("Placements"@, Self::columns()),
    {
        let columns = vec![("player_id", "INTEGER"), ("tournament_id", "INTEGER"), ("placement", "INTEGER")];
        proof {
            assert(column_views(columns@) =~= Self::columns());
        }
        build_create_table_command("Placements", columns.as_slice())
    }
}

/// One row of the `Placements` table.
pub struct PlacementsTableRow {
    player_id: i64,
    tournament_id: i64,
    placement: i64,
}

impl PlacementsTableRow {
    /// The row's `player_id`, for contracts.
    pub closed spec fn player_id(self) -> i64 {
        self.player_id
    }

    /// The row's `tournament_id`, for contracts.
    pub closed spec fn tournament_id(self) -> i64 {
        self.tournament_id
    }

    /// The row's `placement`, for contracts.
    pub closed spec fn placement(self) -> i64 {
        self.placement
    }

    /// The row's `player_id`.
    pub fn get_player_id(&self) -> (r: &i64)
        ensures
            *r == self.player_id(),
    {
        &self.player_id
    }

    /// The row's `tournament_id`.
    pub fn get_tournament_id(&self) -> (r: &i64)
        ensures
            *r == self.tournament_id(),
    {
        &self.tournament_id
    }

    /// The row's `placement`.
    pub fn get_placement(&self) -> (r: &i64)
        ensures
            *r == self.placement(),
    {
        &self.placement
    }

    /// Reads a row of the table from a query result, column by column in
    /// the order of the description; the first column that cannot be read
    /// decides the error.
    pub fn try_from_row(value: &SqlRow) -> (r: Result<Self, RowReadError>)
        ensures
            match integer_cell(*value, "player_id"@) {
                CellRead::Value(x0) => match integer_cell(*value, "tournament_id"@) {
                    CellRead::Value(x1) => match integer_cell(*value, "placement"@) {
                        CellRead::Value(x2) => (r matches Ok(row) && row.player_id() == x0 && row.tournament_id() == x1 && row.placement() == x2),
                        o => (r matches Err(e) && read_error_matches(o, "placement"@, e)),
                    },
                    o => (r matches Err(e) && read_error_matches(o, "tournament_id"@, e)),
                },
                o => (r matches Err(e) && read_error_matches(o, "player_id"@, e)),
            },
    {
        let player_id: i64 = match value.try_read_integer("player_id") {
            Ok(x) => x,
            Err(e) => return Err(e),
        };
        let tournament_id: i64 = match value.try_read_integer("tournament_id") {
            Ok(x) => x,
            Err(e) => return Err(e),
        };
        let placement: i64 = match value.try_read_integer("placement") {
            Ok(x) => x,
            Err(e) => return Err(e),
        };
        Ok(PlacementsTableRow { player_id, tournament_id, placement })
    }
}

/// A row that holds exactly the players table's columns, an integer
/// identifier and a string tag, reads back as a players row with that
/// identifier and that tag.
pub proof fn law_players_row_read_back(row: SqlRow, id: i64, tag: Seq<char>)
    requires
        row.columns@.len() == 2,
        row.columns@[0].0@ == "player_id"@,
        row.columns@[0].1 == SqlValue::Integer(id),
        row.columns@[1].0@ == "player_tag"@,
        row.columns@[1].1 matches SqlValue::String(t) && t@ == tag,
    ensures
        integer_cell(row, "player_id"@) == CellRead::Value(id),
        text_cell(row, "player_tag"@) == CellRead::Value(tag),
{
    reveal_strlit("player_id");
    reveal_strlit("player_tag");
    assert("player_id"@[7] != "player_tag"@[7]);
    assert(distinct_column_names(row));
    law_read_back_column(row, 0);
    law_read_back_column(row, 1);
}

} // verus!
