//! The EZPR file format: an SQLite database that holds players,
//! tournaments, aliases and placements.
pub mod database;
pub mod tables;

use vstd::prelude::*;

use self::database::{quote_sql_text, sql_string_literal, Database, SqliteError, StatementRun};
use crate::text::same_text;
use self::tables::itabledesc::{
    create_table_command, law_column_list_grows_by_one_column, law_create_table_command_frames_column_list,
};
use self::tables::PlayersTable;

verus! {

/// The statements that empty a database completely before its tables are
/// created.
pub const CLEAR_DATABASE_STATEMENT: &'static str = "
            PRAGMA writable_schema = 1;
            DELETE FROM sqlite_master;
            PRAGMA writable_schema = 0;
            VACUUM;
            PRAGMA integrity_check;
        ";

/// Why an operation on an EZPR file failed.
#[derive(Debug)]
pub enum EZPRError {
    /// SQLite reported an error.
    Sqlite(SqliteError),
    /// The file to load could not be opened; the message says why.
    FileNotAccessible(String),
}

/// What an operation did to the slot of the current file, as far as
/// whether a file is loaded goes.
pub enum FileStep {
    /// A file was made the current file.
    Opened,
    /// The current file was closed.
    Closed,
    /// The slot was left as it was.
    Unchanged,
}

/// Whether a file is loaded after `step`, given whether one was before.
pub open spec fn loaded_after_step(loaded: bool, step: FileStep) -> bool {
    match step {
        FileStep::Opened => true,
        FileStep::Closed => false,
        FileStep::Unchanged => loaded,
    }
}

/// Whether a file is loaded after `steps`, starting with none loaded.
pub open spec fn loaded_after(steps: Seq<FileStep>) -> bool
    decreases steps.len(),
{
    if steps.len() == 0 {
        false
    } else {
        loaded_after_step(loaded_after(steps.drop_last()), steps.last())
    }
}

/// Step `i` opened a file and no later step closed it.
pub open spec fn open_at_and_not_closed(steps: Seq<FileStep>, i: int) -> bool {
    &&& 0 <= i < steps.len()
    &&& steps[i] is Opened
    &&& forall|j: int| #![trigger steps[j]] i < j < steps.len() ==> !(steps[j] is Closed)
}

/// Some step opened a file and no later step closed it.
pub open spec fn opened_and_not_closed(steps: Seq<FileStep>) -> bool {
    exists|i: int| #[trigger] open_at_and_not_closed(steps, i)
}

/// A step that leaves the slot alone keeps whether some open is still
/// unclosed.
proof fn lemma_unchanged_step(steps: Seq<FileStep>)
    requires
        steps.len() > 0,
        steps.last() is Unchanged,
    ensures
        opened_and_not_closed(steps) == opened_and_not_closed(steps.drop_last()),
{
    let p = steps.drop_last();
    let n = steps.len() - 1;
    if opened_and_not_closed(p) {
        let i = choose|i: int| #[trigger] open_at_and_not_closed(p, i);
        assert forall|j: int| #![trigger steps[j]] i < j < steps.len() implies !(steps[j] is Closed) by {
            if j < n {
                assert(steps[j] == p[j]);
            }
        }
        assert(open_at_and_not_closed(steps, i));
    }
    if opened_and_not_closed(steps) {
        let i = choose|i: int| #[trigger] open_at_and_not_closed(steps, i);
        assert(i != n);
        assert forall|j: int| #![trigger p[j]] i < j < p.len() implies !(p[j] is Closed) by {
            assert(steps[j] == p[j]);
        }
        assert(open_at_and_not_closed(p, i));
    }
}

/// A file is loaded exactly when the last successful new or load was not
/// followed by a close (each operation's step stands in its contract).
pub proof fn law_loaded_until_closed(steps: Seq<FileStep>)
    ensures
        loaded_after(steps) == opened_and_not_closed(steps),
    decreases steps.len(),
{
    if steps.len() > 0 {
        let n = steps.len() - 1;
        law_loaded_until_closed(steps.drop_last());
        match steps.last() {
            FileStep::Opened => {
                assert(open_at_and_not_closed(steps, n));
            },
            FileStep::Closed => {
                if opened_and_not_closed(steps) {
                    let i = choose|i: int| #[trigger] open_at_and_not_closed(steps, i);
                    assert(steps[n] is Closed);
                }
            },
            FileStep::Unchanged => {
                lemma_unchanged_step(steps);
            },
        }
    }
}

/// The operations on the currently opened EZPR file. The slot that holds
/// it (`None` while no file is open) is handed to each operation.
pub trait IEZPRFile: Sized {
    /// Creates a new file instance. Overwrites
    /// previously opened file, so before calling this function,
    /// code should check if the end-user is okay with overwriting
    /// the previously opened file.
    fn new_file(instance: &mut Option<Self>, file_path: &str) -> (r: Result<(), EZPRError>)
        ensures
            r is Ok ==> *final(instance) is Some,
            r is Err ==> *final(instance) == *old(instance),
            (*final(instance) is Some) == loaded_after_step(
                *old(instance) is Some,
                if r is Ok { FileStep::Opened } else { FileStep::Unchanged },
            ),
    ;

    /// Saves the currently opened file to disk. If a file is
    /// not open, simply return Ok(). Any errors in the process
    /// are returned as Err().
    fn save_file(instance: &mut Option<Self>, file_path: &str) -> (r: Result<(), EZPRError>)
        ensures
            *old(instance) is None ==> r is Ok && *final(instance) is None,
            (*final(instance) is Some) == loaded_after_step(*old(instance) is Some, FileStep::Unchanged),
    ;

    /// Load a file on disk into program memory. This
    /// function will ensure that the file exists
    /// before attemtpting to load it (`file_check` is the outcome of
    /// opening it: `Err` with the reason where that failed). Any errors
    /// with this process are reported as Err().
    fn load_file(instance: &mut Option<Self>, file_path: &str, file_check: Result<(), String>) -> (r: Result<
        (),
        EZPRError,
    >)
        ensures
            file_check matches Err(m) ==> (r matches Err(EZPRError::FileNotAccessible(m2)) && m2@ == m@),
            r is Ok ==> file_check is Ok && *final(instance) is Some,
            r is Err ==> *final(instance) == *old(instance),
            (*final(instance) is Some) == loaded_after_step(
                *old(instance) is Some,
                if r is Ok { FileStep::Opened } else { FileStep::Unchanged },
            ),
    ;

    /// Closes the currently opened file without saving any changes.
    /// Any errors are reported as Err().
    fn close_file(instance: &mut Option<Self>) -> (r: Result<(), EZPRError>)
        ensures
            r is Ok ==> *final(instance) is None,
            r is Err ==> *final(instance) == *old(instance),
            (*final(instance) is Some) == loaded_after_step(
                *old(instance) is Some,
                if r is Ok { FileStep::Closed } else { FileStep::Unchanged },
            ),
    ;

    /// Returns `true` if a file is currently loaded into
    /// program memory, `false` otherwise.
    fn is_file_loaded(instance: &Option<Self>) -> (r: bool)
        ensures
            r == instance is Some,
    {
        instance.is_some()
    }
}

/// An opened EZPR file.
pub struct EZPRFile {
    /// The filename to which this database should
    /// be saved.
    filename: String,

    /// A connection to a SQLite DB instance, which
    /// should be opened to the location on disk
    /// correlating to `filename`.
    sqlite_connection: Database,
}

/// The statement that creates the players table.
pub open spec fn create_players_statement() -> Seq<char> {
    create_table_command("Players"@, PlayersTable::columns())
}

/// The players table of a new file is created by
/// `CREATE TABLE Players ( player_id INTEGER PRIMARY KEY AUTOINCREMENT, player_tag VARCHAR(30));`,
/// so every player gets an identifier of its own; and a new file whose
/// set-up succeeded ran the clearing and then that statement.
pub proof fn law_players_table_statement()
    ensures
        create_players_statement()
            == "CREATE TABLE Players ( player_id INTEGER PRIMARY KEY AUTOINCREMENT, player_tag VARCHAR(30));"@,
        setup_statements() == seq![
            (CLEAR_DATABASE_STATEMENT@, true),
            ("CREATE TABLE Players ( player_id INTEGER PRIMARY KEY AUTOINCREMENT, player_tag VARCHAR(30));"@, true),
        ],
{
    reveal_strlit("CREATE TABLE Players ( player_id INTEGER PRIMARY KEY AUTOINCREMENT, player_tag VARCHAR(30));");
    reveal_strlit("Players");
    reveal_strlit("player_id");
    reveal_strlit("INTEGER PRIMARY KEY AUTOINCREMENT");
    reveal_strlit("player_tag");
    reveal_strlit("VARCHAR(30)");
    let id = ("player_id"@, "INTEGER PRIMARY KEY AUTOINCREMENT"@);
    let tag = ("player_tag"@, "VARCHAR(30)"@);
    let none = Seq::<(Seq<char>, Seq<char>)>::empty();
    law_column_list_grows_by_one_column(none, id.0, id.1);
    law_column_list_grows_by_one_column(none.push(id), tag.0, tag.1);
    assert(PlayersTable::columns() =~= none.push(id).push(tag));
    law_create_table_command_frames_column_list("Players"@, PlayersTable::columns());
    assert(create_players_statement()
        =~= "CREATE TABLE Players ( player_id INTEGER PRIMARY KEY AUTOINCREMENT, player_tag VARCHAR(30));"@);
}

/// What setting up a new file runs, when every statement succeeds: the
/// clearing of the database, then the creation of the players table.
pub open spec fn setup_statements() -> Seq<StatementRun> {
    seq![(CLEAR_DATABASE_STATEMENT@, true), (create_players_statement(), true)]
}

/// Setting up a new file took the log of its database from `before` to
/// `after`, and `succeeded` tells whether it succeeded: either both
/// statements ran and succeeded, or the clearing failed, or the clearing
/// succeeded and the creation of the players table failed. Nothing runs
/// after a statement that fails.
pub open spec fn set_up_ran(before: Seq<StatementRun>, after: Seq<StatementRun>, succeeded: bool) -> bool {
    ||| (succeeded && after == before + setup_statements())
    ||| (!succeeded && after == before.push((CLEAR_DATABASE_STATEMENT@, false)))
    ||| (!succeeded && after == before + seq![
        (CLEAR_DATABASE_STATEMENT@, true),
        (create_players_statement(), false),
    ])
}

/// Set-up succeeds exactly when its last two statements ran and both
/// succeeded; it only adds to the log; and where it failed, the last
/// statement it ran failed.
pub proof fn law_set_up_succeeds_when_both_statements_do(
    before: Seq<StatementRun>,
    after: Seq<StatementRun>,
    succeeded: bool,
)
    requires
        set_up_ran(before, after, succeeded),
    ensures
        after.len() > before.len(),
        after.subrange(0, before.len() as int) == before,
        succeeded <==> (after.len() == before.len() + 2 && after[after.len() - 1].1 && after[after.len() - 2].1),
        !succeeded ==> !after[after.len() - 1].1,
        after[before.len() as int].0 == CLEAR_DATABASE_STATEMENT@,
{
    if succeeded && after == before + setup_statements() {
        assert(after.subrange(0, before.len() as int) =~= before);
        assert(after[before.len() as int] == setup_statements()[0]);
    } else if !succeeded && after == before.push((CLEAR_DATABASE_STATEMENT@, false)) {
        assert(after.subrange(0, before.len() as int) =~= before);
    } else {
        let tail = seq![(CLEAR_DATABASE_STATEMENT@, true), (create_players_statement(), false)];
        assert(after == before + tail);
        assert(after.subrange(0, before.len() as int) =~= before);
        assert(after[before.len() as int] == tail[0]);
        assert(after[after.len() - 1] == tail[1]);
    }
}

/// The start of the statement that saves a database to another file.
pub const SAVE_STATEMENT_START: &'static str = "VACUUM INTO ";

/// The statement that writes a copy of the open database to the file at
/// `path`.
pub open spec fn save_statement(path: Seq<char>) -> Seq<char> {
    SAVE_STATEMENT_START@ + sql_string_literal(path)
}

/// Writes the statement that copies the open database to the file at
/// `path`.
pub fn make_save_statement(path: &str) -> (r: String)
    ensures
        r@ == save_statement(path@),
{
    let mut statement = String::from_str(SAVE_STATEMENT_START);
    let quoted = quote_sql_text(path);
    statement.append(quoted.as_str());
    statement
}

impl EZPRFile {
    /// The file's name, for contracts.
    pub closed spec fn filename(self) -> Seq<char> {
        self.filename@
    }

    /// The path at which the file's database was opened.
    pub closed spec fn database_path(self) -> Seq<char> {
        self.sqlite_connection.path()
    }

    /// The statements run on the file's database since it was opened, in
    /// order, each with whether it succeeded.
    pub closed spec fn statements_run(self) -> Seq<StatementRun> {
        self.sqlite_connection.statements()
    }

    /// The file's name.
    pub fn get_filename(&self) -> (r: &String)
        ensures
            r@ == self.filename(),
    {
        &self.filename
    }

    /// Clears the database of a new file (`CLEAR_DATABASE_STATEMENT`), then
    /// creates its players table; stops at the first statement that fails.
    /// Succeeds exactly when both statements ran and succeeded.
    fn set_up_sqlite_tables(ezpr_file: &mut Self) -> (r: Result<(), SqliteError>)
        ensures
            final(ezpr_file).filename() == old(ezpr_file).filename(),
            final(ezpr_file).database_path() == old(ezpr_file).database_path(),
            set_up_ran(old(ezpr_file).statements_run(), final(ezpr_file).statements_run(), r is Ok),
            r matches Err(e) ==> e.failed_to_run(CLEAR_DATABASE_STATEMENT@) || e.failed_to_run(
                create_players_statement(),
            ),
    {
        let ghost before = ezpr_file.statements_run();
        let conn = &mut ezpr_file.sqlite_connection;

        // Ensure DB is completely cleared
        match conn.execute(CLEAR_DATABASE_STATEMENT) {
            Ok(()) => {},
            Err(e) => return Err(e),
        }

        // Create player table
        let create_players = PlayersTable::get_create_table_command();
        let r = conn.execute(create_players.as_str());
        assert(ezpr_file.statements_run() =~= before + seq![
            (CLEAR_DATABASE_STATEMENT@, true),
            (create_players_statement(), r is Ok),
        ]);
        r
    }

    /// Makes the file opened at `file_path` (`opened`: the outcome of
    /// opening its database) the current file.
    pub fn store_opened(
        instance: &mut Option<Self>,
        file_path: &str,
        opened: Result<Database, SqliteError>,
    ) -> (r: Result<(), EZPRError>)
        ensures
            opened is Ok <==> r is Ok,
            opened matches Ok(db) ==> (*final(instance) matches Some(f) && f.filename() == file_path@
                && f.database_path() == db.path() && f.statements_run() == db.statements()),
            r is Err ==> *final(instance) == *old(instance),
            opened matches Err(e) ==> (r matches Err(EZPRError::Sqlite(e2)) && e2 == e),
    {
        match opened {
            Ok(connection) => {
                *instance = Some(EZPRFile { filename: String::from_str(file_path), sqlite_connection: connection });
                Ok(())
            },
            Err(e) => Err(EZPRError::Sqlite(e)),
        }
    }

    /// Sets up the tables of a new file at `file_path` (`opened`: the
    /// outcome of opening its database). Also gives back the log of the
    /// database once set-up stopped: the file comes back exactly when the
    /// database was opened and both set-up statements succeeded.
    pub fn prepare_new(file_path: &str, opened: Result<Database, SqliteError>) -> (r: (
        Result<Self, SqliteError>,
        Ghost<Seq<StatementRun>>,
    ))
        ensures
            opened matches Err(e) ==> (r.0 matches Err(e2) && e2 == e),
            opened matches Ok(db) ==> set_up_ran(db.statements(), r.1@, r.0 is Ok),
            opened is Ok ==> (r.0 matches Err(e) ==> e.failed_to_run(CLEAR_DATABASE_STATEMENT@) || e.failed_to_run(
                create_players_statement(),
            )),
            r.0 matches Ok(f) ==> (opened matches Ok(db) && f.filename() == file_path@
                && f.database_path() == db.path() && f.statements_run() == r.1@),
    {
        match opened {
            Ok(db) => {
                let mut file_instance = EZPRFile { filename: String::from_str(file_path), sqlite_connection: db };
                let r = EZPRFile::set_up_sqlite_tables(&mut file_instance);
                let tried = Ghost(file_instance.statements_run());
                match r {
                    Ok(()) => (Ok(file_instance), tried),
                    Err(e) => (Err(e), tried),
                }
            },
            Err(e) => (Err(e), Ghost(Seq::empty())),
        }
    }

    /// Makes a prepared new file the current file (`prepared`: the outcome
    /// of preparing it).
    pub fn store_prepared(
        instance: &mut Option<Self>,
        prepared: Result<Self, SqliteError>,
    ) -> (r: Result<(), EZPRError>)
        ensures
            prepared is Ok <==> r is Ok,
            prepared matches Ok(f) ==> *final(instance) == Some(f),
            r is Err ==> *final(instance) == *old(instance),
            prepared matches Err(e) ==> (r matches Err(EZPRError::Sqlite(e2)) && e2 == e),
    {
        match prepared {
            Ok(file) => {
                *instance = Some(file);
                Ok(())
            },
            Err(e) => Err(EZPRError::Sqlite(e)),
        }
    }
}

impl IEZPRFile for EZPRFile {
    /// A file saved to the path it was opened at is already on disk: SQLite
    /// writes each change through. Saving it to another path writes a copy
    /// of its database there with `VACUUM INTO`, which SQLite refuses where
    /// that file exists and is not empty. The current file stays the one
    /// that was open.
    fn save_file(instance: &mut Option<Self>, file_path: &str) -> (r: Result<(), EZPRError>)
        ensures
            *old(instance) matches Some(f) ==> (*final(instance) matches Some(g) && g.filename() == f.filename()
                && g.database_path() == f.database_path() && (if file_path@ == f.filename() {
                    r is Ok && g.statements_run() == f.statements_run()
                } else {
                    &&& g.statements_run() == f.statements_run().push((save_statement(file_path@), r is Ok))
                    &&& r is Err ==> (r matches Err(EZPRError::Sqlite(_)))
                })),
            r matches Err(EZPRError::Sqlite(e)) ==> e.failed_to_run(save_statement(file_path@)),
    {
        match instance {
            None => Ok(()),
            Some(file) => {
                if same_text(file_path, file.filename.as_str()) {
                    Ok(())
                } else {
                    let statement = make_save_statement(file_path);
                    match file.sqlite_connection.execute(statement.as_str()) {
                        Ok(()) => Ok(()),
                        Err(e) => Err(EZPRError::Sqlite(e)),
                    }
                }
            },
        }
    }

    fn close_file(instance: &mut Option<Self>) -> (r: Result<(), EZPRError>)
        ensures
            r is Ok,
    {
        *instance = None;
        Ok(())
    }

    fn is_file_loaded(instance: &Option<Self>) -> (r: bool) {
        instance.is_some()
    }

    fn load_file(instance: &mut Option<Self>, file_path: &str, file_check: Result<(), String>) -> (r: Result<(), EZPRError>)
        ensures
            file_check matches Err(m) ==> (r matches Err(EZPRError::FileNotAccessible(m2)) && m2@ == m@),
            file_check is Ok ==> (r is Err ==> r matches Err(EZPRError::Sqlite(_))),
            r is Ok ==> (*final(instance) matches Some(f) && f.filename() == file_path@
                && f.database_path() == file_path@ && f.statements_run() == Seq::<StatementRun>::empty()),
            r matches Err(EZPRError::Sqlite(e)) ==> e.failed_to_open(file_path@),
    {
        match file_check {
            Ok(()) => {},
            Err(m) => return Err(EZPRError::FileNotAccessible(m)),
        }
        // Now if we're here, we can be certain that the
        // file exists, now open it as a sqlite database.
        let opened = Database::open(file_path);
        EZPRFile::store_opened(instance, file_path, opened)
    }

    fn new_file(instance: &mut Option<Self>, file_path: &str) -> (r: Result<(), EZPRError>)
        ensures
            r is Ok ==> (*final(instance) matches Some(f) && f.filename() == file_path@
                && f.database_path() == file_path@ && f.statements_run() == setup_statements()),
            r is Err ==> r matches Err(EZPRError::Sqlite(_)),
            r matches Err(EZPRError::Sqlite(e)) ==> e.failed_to_open(file_path@) || e.failed_to_run(
                CLEAR_DATABASE_STATEMENT@,
            ) || e.failed_to_run(create_players_statement()),
    {
        let opened = Database::open(file_path);
        let (prepared, _tried) = EZPRFile::prepare_new(file_path, opened);
        assert(Seq::<StatementRun>::empty() + setup_statements() =~= setup_statements());
        EZPRFile::store_prepared(instance, prepared)
    }
}

/// Taking one more step decides whether a file is loaded from whether one
/// was before.
proof fn lemma_loaded_after_push(steps: Seq<FileStep>, step: FileStep)
    ensures
        loaded_after(steps.push(step)) == loaded_after_step(loaded_after(steps), step),
{
    assert(steps.push(step).drop_last() =~= steps);
}

/// The slot of the currently opened file (`None` while no file is open),
/// with the steps that the operations on it have taken since it was made.
/// It holds a file exactly when those steps leave one loaded.
pub struct EZPRFileSlot {
    current: Option<EZPRFile>,
    steps: Ghost<Seq<FileStep>>,
}

impl EZPRFileSlot {
    /// The file in the slot.
    pub closed spec fn current(self) -> Option<EZPRFile> {
        self.current
    }

    /// The steps taken on the slot since it was made, in order.
    pub closed spec fn history(self) -> Seq<FileStep> {
        self.steps@
    }

    #[verifier::type_invariant]
    spec fn holds_file_when_loaded(self) -> bool {
        (self.current is Some) == loaded_after(self.steps@)
    }

    /// An empty slot, on which no step has been taken.
    pub fn new() -> (s: Self)
        ensures
            s.current() is None,
            s.history() == Seq::<FileStep>::empty(),
    {
        EZPRFileSlot { current: None, steps: Ghost(Seq::empty()) }
    }

    /// The file in the slot.
    pub fn current_file(&self) -> (r: &Option<EZPRFile>)
        ensures
            *r == self.current(),
    {
        &self.current
    }

    /// Takes the file and the steps out of the slot, leaving an empty one.
    fn take_parts(&mut self) -> (r: (Option<EZPRFile>, Ghost<Seq<FileStep>>))
        ensures
            r.0 == old(self).current(),
            r.1@ == old(self).history(),
            (r.0 is Some) == loaded_after(r.1@),
    {
        let mut slot = EZPRFileSlot::new();
        std::mem::swap(&mut slot, self);
        proof {
            use_type_invariant(&slot);
        }
        let EZPRFileSlot { current, steps } = slot;
        (current, steps)
    }

    /// Creates a new file at `file_path` and puts it in the slot
    /// (`IEZPRFile::new_file`).
    pub fn new_file(&mut self, file_path: &str) -> (r: Result<(), EZPRError>)
        ensures
            final(self).history() == old(self).history().push(
                if r is Ok { FileStep::Opened } else { FileStep::Unchanged },
            ),
            r is Ok ==> (final(self).current() matches Some(f) && f.filename() == file_path@
                && f.database_path() == file_path@ && f.statements_run() == setup_statements()),
            r is Err ==> (r matches Err(EZPRError::Sqlite(_))) && final(self).current() == old(self).current(),
            r matches Err(EZPRError::Sqlite(e)) ==> e.failed_to_open(file_path@) || e.failed_to_run(
                CLEAR_DATABASE_STATEMENT@,
            ) || e.failed_to_run(create_players_statement()),
    {
        let (mut current, steps) = self.take_parts();
        let r = EZPRFile::new_file(&mut current, file_path);
        let ghost step = if r is Ok { FileStep::Opened } else { FileStep::Unchanged };
        proof {
            lemma_loaded_after_push(steps@, step);
        }
        *self = EZPRFileSlot { current, steps: Ghost(steps@.push(step)) };
        r
    }

    /// Loads the file at `file_path` into the slot (`IEZPRFile::load_file`;
    /// `file_check` is the outcome of opening the file).
    pub fn load_file(&mut self, file_path: &str, file_check: Result<(), String>) -> (r: Result<(), EZPRError>)
        ensures
            final(self).history() == old(self).history().push(
                if r is Ok { FileStep::Opened } else { FileStep::Unchanged },
            ),
            file_check matches Err(m) ==> (r matches Err(EZPRError::FileNotAccessible(m2)) && m2@ == m@),
            file_check is Ok ==> (r is Err ==> r matches Err(EZPRError::Sqlite(_))),
            r is Ok ==> (final(self).current() matches Some(f) && f.filename() == file_path@
                && f.database_path() == file_path@ && f.statements_run() == Seq::<StatementRun>::empty()),
            r is Err ==> final(self).current() == old(self).current(),
            r matches Err(EZPRError::Sqlite(e)) ==> e.failed_to_open(file_path@),
    {
        let (mut current, steps) = self.take_parts();
        let r = EZPRFile::load_file(&mut current, file_path, file_check);
        let ghost step = if r is Ok { FileStep::Opened } else { FileStep::Unchanged };
        proof {
            lemma_loaded_after_push(steps@, step);
        }
        *self = EZPRFileSlot { current, steps: Ghost(steps@.push(step)) };
        r
    }

    /// Saves the file in the slot to `file_path` (`IEZPRFile::save_file`).
    pub fn save_file(&mut self, file_path: &str) -> (r: Result<(), EZPRError>)
        ensures
            final(self).history() == old(self).history().push(FileStep::Unchanged),
            old(self).current() is None ==> r is Ok && final(self).current() is None,
            old(self).current() matches Some(f) ==> (final(self).current() matches Some(g)
                && g.filename() == f.filename() && g.database_path() == f.database_path()
                && (if file_path@ == f.filename() {
                    r is Ok && g.statements_run() == f.statements_run()
                } else {
                    &&& g.statements_run() == f.statements_run().push((save_statement(file_path@), r is Ok))
                    &&& r is Err ==> (r matches Err(EZPRError::Sqlite(_)))
                })),
            r matches Err(EZPRError::Sqlite(e)) ==> e.failed_to_run(save_statement(file_path@)),
    {
        let (mut current, steps) = self.take_parts();
        let r = EZPRFile::save_file(&mut current, file_path);
        proof {
            lemma_loaded_after_push(steps@, FileStep::Unchanged);
        }
        *self = EZPRFileSlot { current, steps: Ghost(steps@.push(FileStep::Unchanged)) };
        r
    }

    /// Closes the file in the slot without saving (`IEZPRFile::close_file`).
    pub fn close_file(&mut self) -> (r: Result<(), EZPRError>)
        ensures
            final(self).history() == old(self).history().push(FileStep::Closed),
            r is Ok,
            final(self).current() is None,
    {
        let (mut current, steps) = self.take_parts();
        let r = EZPRFile::close_file(&mut current);
        proof {
            lemma_loaded_after_push(steps@, FileStep::Closed);
        }
        *self = EZPRFileSlot { current, steps: Ghost(steps@.push(FileStep::Closed)) };
        r
    }

    /// Whether a file is loaded: exactly when some step opened a file and
    /// no later step closed it.
    pub fn is_file_loaded(&self) -> (r: bool)
        ensures
            r == self.current() is Some,
            r == opened_and_not_closed(self.history()),
    {
        proof {
            use_type_invariant(self);
            law_loaded_until_closed(self.steps@);
        }
        EZPRFile::is_file_loaded(&self.current)
    }
}

} // verus!
