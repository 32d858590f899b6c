//! Table interface for end users.
//!
//! Every table of the EZPR file format is described by its name and its
//! columns (name and SQL type). From a description come the table's
//! `CREATE TABLE` statement and the typed reading of its rows.
use vstd::prelude::*;

verus! {

/// The views of a list of `(column name, SQL type)` pairs.
pub open spec fn column_views(columns: Seq<(&str, &str)>) -> Seq<(Seq<char>, Seq<char>)> {
    columns.map_values(|c: (&str, &str)| (c.0@, c.1@))
}

/// The views of a column list keep its length and order: the `i`-th view
/// is the `i`-th column's name and type.
pub proof fn law_column_views_in_order(columns: Seq<(&str, &str)>)
    ensures
        column_views(columns).len() == columns.len(),
        forall|i: int| 0 <= i < columns.len() ==> #[trigger] column_views(columns)[i] == (columns[i].0@, columns[i].1@),
{
}

/// The text that the `i`-th column adds to the column list:
/// a separating comma for every column but the first, a space, the
/// column's name, a space, and its SQL type.
pub open spec fn column_clause(i: int, name: Seq<char>, sql_type: Seq<char>) -> Seq<char> {
    (if i == 0 { ""@ } else { ","@ }) + " "@ + name + " "@ + sql_type
}

/// The column list of a `CREATE TABLE` statement.
pub open spec fn column_list(columns: Seq<(Seq<char>, Seq<char>)>) -> Seq<char>
    decreases columns.len(),
{
    if columns.len() == 0 {
        Seq::empty()
    } else {
        let last: int = columns.len() - 1;
        column_list(columns.drop_last()) + column_clause(last, columns[last].0, columns[last].1)
    }
}

/// The statement that creates table `name` with the given columns:
/// `CREATE TABLE <name> ( <col> <type>, <col> <type>);`
pub open spec fn create_table_command(name: Seq<char>, columns: Seq<(Seq<char>, Seq<char>)>) -> Seq<char> {
    "CREATE TABLE "@ + name + " ("@ + column_list(columns) + ");"@
}

/// A column list starts empty; each column added to it is written after
/// the columns before it as a space (a comma and a space where columns came
/// before), its name, a space and its SQL type, for lists of any length.
pub proof fn law_column_list_grows_by_one_column(
    columns: Seq<(Seq<char>, Seq<char>)>,
    name: Seq<char>,
    sql_type: Seq<char>,
)
    ensures
        column_list(Seq::empty()) == Seq::<char>::empty(),
        column_list(columns.push((name, sql_type))) == column_list(columns) + (if columns.len() == 0 {
            seq![' ']
        } else {
            seq![',', ' ']
        }) + name + seq![' '] + sql_type,
{
    reveal_strlit("");
    reveal_strlit(",");
    reveal_strlit(" ");
    let all = columns.push((name, sql_type));
    assert(all.drop_last() =~= columns);
    assert(all[all.len() - 1] == (name, sql_type));
    if columns.len() == 0 {
        assert(column_list(all) =~= column_list(columns) + seq![' '] + name + seq![' '] + sql_type);
    } else {
        assert(column_list(all) =~= column_list(columns) + seq![',', ' '] + name + seq![' '] + sql_type);
    }
}

/// The statement that creates a table is `CREATE TABLE `, the table's name,
/// ` (`, its column list and `);`.
pub proof fn law_create_table_command_frames_column_list(name: Seq<char>, columns: Seq<(Seq<char>, Seq<char>)>)
    ensures
        create_table_command(name, columns) == seq!['C', 'R', 'E', 'A', 'T', 'E', ' ', 'T', 'A', 'B', 'L', 'E', ' ']
            + name + seq![' ', '('] + column_list(columns) + seq![')', ';'],
{
    reveal_strlit("CREATE TABLE ");
    reveal_strlit(" (");
    reveal_strlit(");");
    assert(create_table_command(name, columns) =~= seq!['C', 'R', 'E', 'A', 'T', 'E', ' ', 'T', 'A', 'B', 'L', 'E', ' ']
        + name + seq![' ', '('] + column_list(columns) + seq![')', ';']);
}

/// Builds the `CREATE TABLE` statement of a table from its name and its
/// `(column name, SQL type)` pairs, in order.
pub fn build_create_table_command(name: &str, columns: &[(&str, &str)]) -> (s: String)
    ensures
        s@ == create_table_command(name@, column_views(columns@)),
{
    let ghost cols = column_views(columns@);
    let mut s = String::from_str("CREATE TABLE ");
    s.append(name);
    s.append(" (");
    let ghost prefix = "CREATE TABLE "@ + name@ + " ("@;
    let n: usize = columns.len();
    let mut i: usize = 0;
    assert(cols.take(0) =~= Seq::<(Seq<char>, Seq<char>)>::empty());
    while i < n
        invariant
            n == columns@.len(),
            cols == column_views(columns@),
            cols.len() == n,
            0 <= i <= n,
            s@ == prefix + column_list(cols.take(i as int)),
        decreases n - i,
    {
        let (col_name, col_type) = columns[i];
        let ghost before = s@;
        if i == 0 {
            s.append("");
        } else {
            s.append(",");
        }
        s.append(" ");
        s.append(col_name);
        s.append(" ");
        s.append(col_type);
        proof {
            let t = cols.take(i + 1);
            assert(t.drop_last() =~= cols.take(i as int));
            assert(t[i as int] == cols[i as int]);
            assert(cols[i as int] == (col_name@, col_type@));
            assert(s@ =~= prefix + column_list(t));
        }
        i = i + 1;
    }
    assert(cols.take(n as int) =~= cols);
    s.append(");");
    assert(s@ =~= create_table_command(name@, cols));
    s
}


/// A value stored in a column of a database row.
///
/// A floating-point value is only marked as such: no part of the file
/// format reads it.
pub enum SqlValue {
    Binary(Vec<u8>),
    Float,
    Integer(i64),
    String(String),
    Null,
}

/// One row of a query result: its columns, in order, each with its name
/// and its value.
pub struct SqlRow {
    pub columns: Vec<(String, SqlValue)>,
}

/// Why a column of a row could not be read as the requested type.
#[derive(Debug, PartialEq, Eq)]
pub enum RowReadError {
    /// The row has no column of the given name.
    IndexOutOfRange(String),
    /// The column holds a value of another type.
    FailedToConvert,
}

impl SqlRow {
    /// `i` is the last column of the row named `name`. A row read from
    /// SQLite maps each name to its last column, so that is the column a
    /// read by name finds.
    pub open spec fn last_column_named(self, name: Seq<char>, i: int) -> bool {
        &&& 0 <= i < self.columns@.len()
        &&& self.columns@[i].0@ == name
        &&& forall|j: int| i < j < self.columns@.len() ==> #[trigger] self.columns@[j].0@ != name
    }

    /// The row has a column named `name`.
    pub open spec fn has_column(self, name: Seq<char>) -> bool {
        exists|i: int| 0 <= i < self.columns@.len() && #[trigger] self.columns@[i].0@ == name
    }

    /// The value that a read of column `name` finds (that of the last
    /// column of that name).
    pub open spec fn value_of(self, name: Seq<char>) -> SqlValue
        recommends
            self.has_column(name),
    {
        self.columns@[choose|i: int| self.last_column_named(name, i)].1
    }

    /// Finds the position of the last column named `name`.
    pub fn find_column(&self, name: &str) -> (r: Option<usize>)
        ensures
            match r {
                Some(i) => self.last_column_named(name@, i as int),
                None => !self.has_column(name@),
            },
    {
        let wanted = String::from_str(name);
        let n: usize = self.columns.len();
        let mut i: usize = n;
        while i > 0
            invariant
                n == self.columns@.len(),
                wanted@ == name@,
                0 <= i <= n,
                forall|j: int| i <= j < n ==> #[trigger] self.columns@[j].0@ != name@,
            decreases i,
        {
            let k: usize = i - 1;
            if self.columns[k].0 == wanted {
                return Some(k);
            }
            i = k;
        }
        None
    }

    /// Reads column `name` as an integer: the column must exist and hold
    /// an integer.
    pub fn try_read_integer(&self, name: &str) -> (r: Result<i64, RowReadError>)
        ensures
            match integer_cell(*self, name@) {
                CellRead::Value(v) => r == Ok::<i64, RowReadError>(v),
                o => (r matches Err(e) && read_error_matches(o, name@, e)),
            },
    {
        match self.find_column(name) {
            None => Err(RowReadError::IndexOutOfRange(String::from_str(name))),
            Some(i) => {
                proof {
                    lemma_last_column_unique(*self, name@, i as int);
                }
                match &self.columns[i].1 {
                    SqlValue::Integer(v) => Ok(*v),
                    _ => Err(RowReadError::FailedToConvert),
                }
            },
        }
    }

    /// Reads column `name` as text: the column must exist and hold a
    /// string.
    pub fn try_read_text(&self, name: &str) -> (r: Result<String, RowReadError>)
        ensures
            match text_cell(*self, name@) {
                CellRead::Value(v) => (r matches Ok(t) && t@ == v),
                o => (r matches Err(e) && read_error_matches(o, name@, e)),
            },
    {
        match self.find_column(name) {
            None => Err(RowReadError::IndexOutOfRange(String::from_str(name))),
            Some(i) => {
                proof {
                    lemma_last_column_unique(*self, name@, i as int);
                }
                match &self.columns[i].1 {
                    SqlValue::String(v) => Ok(v.clone()),
                    _ => Err(RowReadError::FailedToConvert),
                }
            },
        }
    }
}

/// What a read of one cell finds: a value of the requested type, no
/// column of that name, or a value of another type.
pub enum CellRead<T> {
    Value(T),
    Missing,
    WrongType,
}

/// What reading column `name` of `row` as an integer finds.
pub open spec fn integer_cell(row: SqlRow, name: Seq<char>) -> CellRead<i64> {
    if !row.has_column(name) {
        CellRead::Missing
    } else {
        match row.value_of(name) {
            SqlValue::Integer(v) => CellRead::Value(v),
            _ => CellRead::WrongType,
        }
    }
}

/// What reading column `name` of `row` as text finds.
pub open spec fn text_cell(row: SqlRow, name: Seq<char>) -> CellRead<Seq<char>> {
    if !row.has_column(name) {
        CellRead::Missing
    } else {
        match row.value_of(name) {
            SqlValue::String(v) => CellRead::Value(v@),
            _ => CellRead::WrongType,
        }
    }
}

/// `e` is the error reported for a failed read of column `name`.
pub open spec fn read_error_matches<T>(o: CellRead<T>, name: Seq<char>, e: RowReadError) -> bool {
    match o {
        CellRead::Missing => (e matches RowReadError::IndexOutOfRange(c) && c@ == name),
        CellRead::WrongType => e == RowReadError::FailedToConvert,
        CellRead::Value(_) => false,
    }
}

/// The last column of a given name is unique, so it is the one that
/// `value_of` reads.
pub proof fn lemma_last_column_unique(row: SqlRow, name: Seq<char>, i: int)
    requires
        row.last_column_named(name, i),
    ensures
        row.has_column(name),
        row.value_of(name) == row.columns@[i].1,
{
    let k = choose|k: int| row.last_column_named(name, k);
    assert(row.last_column_named(name, k));
    if k < i {
        assert(row.columns@[i].0@ != name);
    } else if i < k {
        assert(row.columns@[k].0@ != name);
    }
}

/// The column names of a row are pairwise distinct.
pub open spec fn distinct_column_names(row: SqlRow) -> bool {
    forall|i: int, j: int|
        0 <= i < j < row.columns@.len() ==> #[trigger] row.columns@[i].0@ != #[trigger] row.columns@[j].0@
}

/// In a row whose column names are distinct, reading a column by its name
/// finds the value stored in that column: an integer column reads back as
/// its integer, a string column as its text, and another type fails.
pub proof fn law_read_back_column(row: SqlRow, i: int)
    requires
        distinct_column_names(row),
        0 <= i < row.columns@.len(),
    ensures
        integer_cell(row, row.columns@[i].0@) == match row.columns@[i].1 {
            SqlValue::Integer(v) => CellRead::Value(v),
            _ => CellRead::<i64>::WrongType,
        },
        text_cell(row, row.columns@[i].0@) == match row.columns@[i].1 {
            SqlValue::String(v) => CellRead::Value(v@),
            _ => CellRead::<Seq<char>>::WrongType,
        },
{
    let name = row.columns@[i].0@;
    assert forall|j: int| i < j < row.columns@.len() implies #[trigger] row.columns@[j].0@ != name by {
        assert(row.columns@[i].0@ != row.columns@[j].0@);
    }
    assert(row.last_column_named(name, i));
    lemma_last_column_unique(row, name, i);
}

/// Where names repeat, a read by name finds the last column of that name:
/// a column that no later column shares its name with reads back as its
/// own value, whatever comes before it.
pub proof fn law_read_finds_last_column_of_name(row: SqlRow, i: int)
    requires
        0 <= i < row.columns@.len(),
        forall|j: int| i < j < row.columns@.len() ==> #[trigger] row.columns@[j].0@ != row.columns@[i].0@,
    ensures
        integer_cell(row, row.columns@[i].0@) == match row.columns@[i].1 {
            SqlValue::Integer(v) => CellRead::Value(v),
            _ => CellRead::<i64>::WrongType,
        },
        text_cell(row, row.columns@[i].0@) == match row.columns@[i].1 {
            SqlValue::String(v) => CellRead::Value(v@),
            _ => CellRead::<Seq<char>>::WrongType,
        },
{
    let name = row.columns@[i].0@;
    assert(row.last_column_named(name, i));
    lemma_last_column_unique(row, name, i);
}

/// Reading a column that the row does not have fails as out of range.
pub proof fn law_read_missing_column(row: SqlRow, name: Seq<char>)
    requires
        forall|j: int| 0 <= j < row.columns@.len() ==> #[trigger] row.columns@[j].0@ != name,
    ensures
        integer_cell(row, name) == CellRead::<i64>::Missing,
        text_cell(row, name) == CellRead::<Seq<char>>::Missing,
{
}

} // verus!
