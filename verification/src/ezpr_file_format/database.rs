//! The SQLite calls of the EZPR file format.
use vstd::prelude::*;

use crate::text::push_char;

verus! {

/// `sqlite::Connection`, an open database, carried through unseen.
#[verifier::external_type_specification]
#[verifier::external_body]
pub struct ExConnection(sqlite::Connection);

/// What SQLite was asked to do: open the database at a path, or run a
/// statement.
#[derive(Debug)]
pub enum SqliteRequest {
    Open(String),
    Execute(String),
}

/// An error reported by SQLite: its result code and its message, where
/// SQLite gave them, and the request that failed. Only the calls into
/// SQLite make one.
#[derive(Debug)]
pub struct SqliteError {
    pub code: Option<isize>,
    pub message: Option<String>,
    request: SqliteRequest,
}

impl SqliteError {
    /// The request that SQLite refused.
    pub closed spec fn failed_request(self) -> SqliteRequest {
        self.request
    }

    /// Whether SQLite refused to open the database at `path`.
    pub open spec fn failed_to_open(self, path: Seq<char>) -> bool {
        self.failed_request() matches SqliteRequest::Open(p) && p@ == path
    }

    /// Whether SQLite refused to run `statement`.
    pub open spec fn failed_to_run(self, statement: Seq<char>) -> bool {
        self.failed_request() matches SqliteRequest::Execute(s) && s@ == statement
    }

    /// The request that SQLite refused.
    pub fn request(&self) -> (r: &SqliteRequest)
        ensures
            *r == self.failed_request(),
    {
        &self.request
    }
}

/// `s` with each single quote doubled, as it is written inside an SQL
/// string literal.
pub open spec fn doubled_quotes(s: Seq<char>) -> Seq<char>
    decreases s.len(),
{
    if s.len() == 0 {
        Seq::empty()
    } else if s.last() == '\'' {
        doubled_quotes(s.drop_last()) + seq!['\'', '\'']
    } else {
        doubled_quotes(s.drop_last()).push(s.last())
    }
}

/// Doubling quotes works character by character: the text made of `a`
/// then `b` becomes that of `a` then that of `b`, a single quote becomes
/// two and any other character stays as it is.
pub proof fn law_doubled_quotes_by_character(a: Seq<char>, b: Seq<char>, c: char)
    ensures
        doubled_quotes(Seq::empty()) == Seq::<char>::empty(),
        doubled_quotes(seq![c]) == (if c == '\'' { seq!['\'', '\''] } else { seq![c] }),
        doubled_quotes(a + b) == doubled_quotes(a) + doubled_quotes(b),
    decreases b.len(),
{
    assert(seq![c].drop_last() =~= Seq::<char>::empty());
    assert(doubled_quotes(seq![c].drop_last()) == Seq::<char>::empty());
    assert(seq![c].last() == c);
    assert(Seq::<char>::empty() + seq!['\'', '\''] =~= seq!['\'', '\'']);
    assert(Seq::<char>::empty().push(c) =~= seq![c]);
    if b.len() == 0 {
        assert(a + b =~= a);
        assert(doubled_quotes(a) + doubled_quotes(b) =~= doubled_quotes(a));
    } else {
        law_doubled_quotes_by_character(a, b.drop_last(), c);
        assert((a + b).drop_last() =~= a + b.drop_last());
        assert((a + b).last() == b.last());
        if b.last() == '\'' {
            assert(doubled_quotes(a + b) =~= doubled_quotes(a) + doubled_quotes(b));
        } else {
            assert(doubled_quotes(a + b) =~= doubled_quotes(a) + doubled_quotes(b));
        }
    }
}

/// `s` as an SQL string literal: between single quotes, each single quote
/// in it doubled.
pub open spec fn sql_string_literal(s: Seq<char>) -> Seq<char> {
    seq!['\''] + doubled_quotes(s) + seq!['\'']
}

/// Writes `s` as an SQL string literal.
pub fn quote_sql_text(s: &str) -> (r: String)
    ensures
        r@ == sql_string_literal(s@),
{
    let n: usize = s.unicode_len();
    let mut r = String::new();
    push_char(&mut r, '\'');
    let mut i: usize = 0;
    assert(s@.take(0) =~= Seq::<char>::empty());
    while i < n
        invariant
            n == s@.len(),
            0 <= i <= n,
            r@ == seq!['\''] + doubled_quotes(s@.take(i as int)),
        decreases n - i,
    {
        let c = s.get_char(i);
        let ghost t = s@.take(i + 1);
        assert(t.drop_last() =~= s@.take(i as int));
        if c == '\'' {
            push_char(&mut r, '\'');
            push_char(&mut r, '\'');
        } else {
            push_char(&mut r, c);
        }
        assert(r@ =~= seq!['\''] + doubled_quotes(t));
        i = i + 1;
    }
    assert(s@.take(n as int) =~= s@);
    push_char(&mut r, '\'');
    r
}

/// A statement handed to SQLite, and whether SQLite reported success.
pub type StatementRun = (Seq<char>, bool);

/// An open SQLite database, with the path it was opened at and the
/// statements run on it through this value, in order, each with its
/// outcome.
pub struct Database {
    connection: sqlite::Connection,
    path: Ghost<Seq<char>>,
    log: Ghost<Seq<StatementRun>>,
}

impl Database {
    /// The path the database was opened at.
    pub closed spec fn path(self) -> Seq<char> {
        self.path@
    }

    /// The statements run on the database so far, in order, each with
    /// whether it succeeded.
    pub closed spec fn statements(self) -> Seq<StatementRun> {
        self.log@
    }

    /// Opens (creating it where it does not exist) the database at `path`.
    /// A database that comes back was opened at `path`, and no statement
    /// has been run on it yet.
    pub fn open(path: &str) -> (r: Result<Database, SqliteError>)
        ensures
            r matches Ok(db) ==> db.path() == path@ && db.statements() == Seq::<StatementRun>::empty(),
            r matches Err(e) ==> e.failed_to_open(path@),
    {
        open_database(path)
    }

    /// Runs `statement` on the database; the statement and its outcome are
    /// added to the log.
    pub fn execute(&mut self, statement: &str) -> (r: Result<(), SqliteError>)
        ensures
            final(self).path() == old(self).path(),
            final(self).statements() == old(self).statements().push((statement@, r is Ok)),
            r matches Err(e) ==> e.failed_to_run(statement@),
    {
        execute_statement(self, statement)
    }
}

/// Opens (creating it where it does not exist) the SQLite database at
/// `path`, with `sqlite::open(path)`.
///
/// A database that comes back is the connection that `sqlite::open` made
/// for `path`, and no statement has been run on it. Whether opening
/// succeeds depends on the file system, so that is not promised; an error
/// keeps SQLite's code and message, and records that opening `path` failed.
#[verifier::external_body]
pub(crate) fn open_database(path: &str) -> (r: Result<Database, SqliteError>)
    ensures
        r matches Ok(db) ==> db.path() == path@ && db.statements() == Seq::<StatementRun>::empty(),
        r matches Err(e) ==> e.failed_to_open(path@),
{
    match sqlite::open(path) {
        Ok(connection) => Ok(Database { connection, path: Ghost(path@), log: Ghost(Seq::empty()) }),
        Err(e) => Err(SqliteError { code: e.code, message: e.message, request: SqliteRequest::Open(path.to_string()) }),
    }
}

/// Runs one or more SQL statements on the database's connection, with
/// `sqlite::Connection::execute(statement)`.
///
/// The statement handed to SQLite is `statement`, and it is logged with
/// whether SQLite reported success. That outcome depends on the database's
/// contents and the file system, so it is not promised; an error keeps
/// SQLite's code and message, and records that running `statement` failed.
#[verifier::external_body]
pub(crate) fn execute_statement(db: &mut Database, statement: &str) -> (r: Result<(), SqliteError>)
    ensures
        final(db).path() == old(db).path(),
        final(db).statements() == old(db).statements().push((statement@, r is Ok)),
        r matches Err(e) ==> e.failed_to_run(statement@),
{
    db.connection.execute(statement).map_err(
        |e| SqliteError { code: e.code, message: e.message, request: SqliteRequest::Execute(statement.to_string()) },
    )
}

} // verus!
