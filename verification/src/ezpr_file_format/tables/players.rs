//! The single-player table description.
use vstd::prelude::*;

use super::itabledesc::{
    build_create_table_command, column_views, create_table_command, integer_cell,
    read_error_matches, text_cell, CellRead, RowReadError, SqlRow,
};

verus! {

/// Description of the `Player` table.
pub struct PlayerTable {}

impl PlayerTable {
    /// The name of column `player_id`.
    pub fn get_player_id_name() -> (r: &'static str)
        ensures
            r@ == "player_id"@,
    {
        "player_id"
    }

    /// The name of column `player_tag`.
    pub fn get_player_tag_name() -> (r: &'static str)
        ensures
            r@ == "player_tag"@,
    {
        "player_tag"
    }

    /// The name of the table.
    pub fn get_table_name() -> (r: &'static str)
        ensures
            r@ == "Player"@,
    {
        "Player"
    }

    /// The columns of the table: each name with its SQL type.
    pub open spec fn columns() -> Seq<(Seq<char>, Seq<char>)> {
        seq![("player_id"@, "INTEGER PRIMARY KEY AUTOINCREMENT"@), ("player_tag"@, "VARCHAR(30)"@)]
    }

    /// The statement that creates the table.
    pub fn get_create_table_command() -> (s: String)
        ensures
            s@ == create_table_command("Player"@, Self::columns()),
    {
        let columns = vec![("player_id", "INTEGER PRIMARY KEY AUTOINCREMENT"), ("player_tag", "VARCHAR(30)")];
        proof {
            assert(column_views(columns@) =~= Self::columns());
        }
        build_create_table_command("Player", columns.as_slice())
    }
}

/// One row of the `Player` table.
pub struct PlayerTableRow {
    player_id: i64,
    player_tag: String,
}

impl PlayerTableRow {
    /// The row's `player_id`, for contracts.
    pub closed spec fn player_id(self) -> i64 {
        self.player_id
    }

    /// The row's `player_tag`, for contracts.
    pub closed spec fn player_tag(self) -> Seq<char> {
        self.player_tag@
    }

    /// The row's `player_id`.
    pub fn get_player_id(&self) -> (r: &i64)
        ensures
            *r == self.player_id(),
    {
        &self.player_id
    }

    /// The row's `player_tag`.
    pub fn get_player_tag(&self) -> (r: &String)
        ensures
            r@ == self.player_tag(),
    {
        &self.player_tag
    }

    /// Reads a row of the table from a query result, column by column in
    /// the order of the description; the first column that cannot be read
    /// decides the error.
    pub fn try_from_row(value: &SqlRow) -> (r: Result<Self, RowReadError>)
        ensures
            match integer_cell(*value, "player_id"@) {
                CellRead::Value(x0) => match text_cell(*value, "player_tag"@) {
                    CellRead::Value(x1) => (r matches Ok(row) && row.player_id() == x0 && row.player_tag() == x1),
                    o => (r matches Err(e) && read_error_matches(o, "player_tag"@, e)),
                },
                o => (r matches Err(e) && read_error_matches(o, "player_id"@, e)),
            },
    {
        let player_id: i64 = match value.try_read_integer("player_id") {
            Ok(x) => x,
            Err(e) => return Err(e),
        };
        let player_tag: String = match value.try_read_text("player_tag") {
            Ok(x) => x,
            Err(e) => return Err(e),
        };
        Ok(PlayerTableRow { player_id, player_tag })
    }
}

} // verus!
