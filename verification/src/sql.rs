//! The calls into SQLite, through rusqlite, with the statements and queries the library hands
//! it, and a ghost log, kept by those calls alone, of what was opened, what ran and what the
//! queries answered.

use vstd::prelude::*;

verus! {

#[verifier::external_type_specification]
#[verifier::external_body]
pub struct ExConnection(rusqlite::Connection);

#[verifier::external_type_specification]
#[verifier::external_body]
pub struct ExSqlError(rusqlite::Error);

#[verifier::external_type_specification]
#[verifier::external_body]
pub struct ExTransaction<'conn>(rusqlite::Transaction<'conn>);

/// rusqlite `Connection::open`: opens, creating it where absent, the database file at `path`,
/// and, where that succeeds, records in `log` that the file at `path` was opened. Whether it
/// succeeds depends on the file system and is not stated.
#[verifier::external_body]
pub(crate) fn sql_open(path: &str, log: &mut StatementLog) -> (r: Result<rusqlite::Connection, rusqlite::Error>)
    ensures
        r is Ok ==> final(log).opened() == Some(Some(path@)) && final(log).ran() == old(log).ran()
            && final(log).reads() == old(log).reads(),
        r is Err ==> *final(log) == *old(log),
{
    rusqlite::Connection::open(path)
}

/// rusqlite `Connection::open_in_memory`, and, where that succeeds, records in `log` that a
/// database in memory was opened. Whether it succeeds is not stated.
#[verifier::external_body]
pub(crate) fn sql_open_in_memory(log: &mut StatementLog) -> (r: Result<rusqlite::Connection, rusqlite::Error>)
    ensures
        r is Ok ==> final(log).opened() == Some(None::<Seq<char>>) && final(log).ran() == old(log).ran()
            && final(log).reads() == old(log).reads(),
        r is Err ==> *final(log) == *old(log),
{
    rusqlite::Connection::open_in_memory()
}

/// The parameters handed to SQLite with a statement.
pub enum SqlArgs {
    Nothing,
    TwoTexts(String, String),
    TextInt(String, i64),
    IntTwoTexts(i64, String, String),
}

/// The parameters as plain values.
pub enum SqlArgsView {
    Nothing,
    TwoTexts(Seq<char>, Seq<char>),
    TextInt(Seq<char>, i64),
    IntTwoTexts(i64, Seq<char>, Seq<char>),
}

impl View for SqlArgs {
    type V = SqlArgsView;

    open spec fn view(&self) -> SqlArgsView {
        match self {
            SqlArgs::Nothing => SqlArgsView::Nothing,
            SqlArgs::TwoTexts(a, b) => SqlArgsView::TwoTexts(a@, b@),
            SqlArgs::TextInt(a, b) => SqlArgsView::TextInt(a@, *b),
            SqlArgs::IntTwoTexts(a, b, c) => SqlArgsView::IntTwoTexts(*a, b@, c@),
        }
    }
}

/// Turns foreign keys on.
pub open spec fn foreign_keys_sql() -> Seq<char> { "PRAGMA foreign_keys = ON;"@ }
/// Reads the schema version.
pub open spec fn user_version_sql() -> Seq<char> { "PRAGMA user_version;"@ }
/// Creates the sessions table.
pub open spec fn create_sessions_sql() -> Seq<char> { "CREATE TABLE IF NOT EXISTS sessions (
                    id INTEGER PRIMARY KEY AUTOINCREMENT,
                    started_at TEXT NOT NULL,
                    ended_at TEXT,
                    created_at TEXT NOT NULL
                );"@ }
/// Creates the events table.
pub open spec fn create_events_sql() -> Seq<char> { "CREATE TABLE IF NOT EXISTS events (
                    id INTEGER PRIMARY KEY AUTOINCREMENT,
                    session_id INTEGER NOT NULL,
                    event_type TEXT NOT NULL,
                    created_at TEXT NOT NULL,
                    FOREIGN KEY(session_id) REFERENCES sessions(id) ON DELETE CASCADE
                );"@ }
/// Sets the schema version to 1.
pub open spec fn set_version_sql() -> Seq<char> { "PRAGMA user_version = 1;"@ }
/// Inserts a session: its start time and its creation time.
pub open spec fn insert_session_sql() -> Seq<char> { "INSERT INTO sessions (started_at, created_at) VALUES (?1, ?2)"@ }
/// Sets the end time of a session: the end time and the session's id.
pub open spec fn end_session_sql() -> Seq<char> { "UPDATE sessions SET ended_at = ?1 WHERE id = ?2"@ }
/// Inserts an event: the session's id, the event type and the event's time.
pub open spec fn insert_event_sql() -> Seq<char> { "INSERT INTO events (session_id, event_type, created_at) VALUES (?1, ?2, ?3)"@ }
/// Reads the newest session.
pub open spec fn last_session_sql() -> Seq<char> { "SELECT id, started_at, ended_at FROM sessions ORDER BY id DESC LIMIT 1"@ }
/// Reads the type of a session's newest event.
pub open spec fn last_event_sql() -> Seq<char> { "SELECT event_type FROM events WHERE session_id = ?1 ORDER BY id DESC LIMIT 1"@ }
/// Reads a session's events in order.
pub open spec fn session_events_sql() -> Seq<char> { "SELECT event_type, created_at FROM events WHERE session_id = ?1 ORDER BY id ASC"@ }

/// What was handed to SQLite: which database was opened, the statements that SQLite reported
/// as run, with their parameters, and the queries it answered, with their keys and answers, in
/// order. Only the calls that open a database or hand a statement or query to SQLite change it.
pub struct StatementLog {
    opened: Ghost<Option<Option<Seq<char>>>>,
    ran: Ghost<Seq<(Seq<char>, SqlArgsView)>>,
    read: Ghost<Seq<SqlRead>>,
}

/// What a query that SQLite answered gave back.
pub enum ReadAnswer {
    /// The one integer read (the schema version).
    Version(i32),
    /// Session rows: id, start time text, end time text.
    Sessions(Seq<(i64, String, Option<String>)>),
    /// Rows of one text each.
    Texts(Seq<String>),
    /// Rows of two texts each.
    TextPairs(Seq<(String, String)>),
}

/// A query handed to SQLite: its text, the key bound to its parameter (if it takes one), and
/// what SQLite answered.
pub struct SqlRead {
    pub sql: Seq<char>,
    pub key: Option<i64>,
    pub answer: ReadAnswer,
}

impl StatementLog {
    /// The database opened: `Some` of the path of its file, or `Some(None)` for one held in
    /// memory; `None` while nothing was opened.
    pub closed spec fn opened(&self) -> Option<Option<Seq<char>>> {
        self.opened@
    }

    /// The statements run, in order.
    pub closed spec fn ran(&self) -> Seq<(Seq<char>, SqlArgsView)> {
        self.ran@
    }

    /// The queries that SQLite answered, with their answers, in order.
    pub closed spec fn reads(&self) -> Seq<SqlRead> {
        self.read@
    }

    /// A log with nothing in it.
    pub fn new() -> (l: StatementLog)
        ensures
            l.ran() == Seq::<(Seq<char>, SqlArgsView)>::empty(),
            l.opened() is None,
            l.reads() == Seq::<SqlRead>::empty(),
    {
        StatementLog { opened: Ghost(None), ran: Ghost(Seq::empty()), read: Ghost(Seq::empty()) }
    }
}

/// The statements run on the connection itself, each with the parameters it takes.
pub open spec fn statement_fits(sql: Seq<char>, args: SqlArgsView) -> bool {
    ||| sql == foreign_keys_sql() && args is Nothing
    ||| sql == insert_session_sql() && args is TwoTexts
    ||| sql == end_session_sql() && args is TextInt
    ||| sql == insert_event_sql() && args is IntTwoTexts
}

/// rusqlite `Connection::execute`: runs one of the library's statements with its parameters
/// (which the `requires` fixes), and, where SQLite reports success, adds the statement and its
/// parameters to `log`. The number of changed rows, and whether the statement succeeds, depend
/// on the database and are not stated.
#[verifier::external_body]
pub(crate) fn sql_execute(conn: &rusqlite::Connection, log: &mut StatementLog, sql: &str, args: SqlArgs) -> (r: Result<usize, rusqlite::Error>)
    requires
        statement_fits(sql@, args@),
    ensures
        r is Ok ==> final(log).ran() == old(log).ran().push((sql@, args@)),
        r is Err ==> final(log).ran() == old(log).ran(),
        final(log).opened() == old(log).opened(),
        final(log).reads() == old(log).reads(),
{
    match args {
        SqlArgs::Nothing => conn.execute(sql, ()),
        SqlArgs::TwoTexts(a, b) => conn.execute(sql, (a, b)),
        SqlArgs::TextInt(a, b) => conn.execute(sql, (a, b)),
        SqlArgs::IntTwoTexts(a, b, c) => conn.execute(sql, (a, b, c)),
    }
}

/// rusqlite `Connection::last_insert_rowid`: the rowid of the last successful insert on this
/// connection. Its value is the database's choice and is not stated.
#[verifier::external_body]
pub(crate) fn sql_last_insert_rowid(conn: &rusqlite::Connection) -> (id: i64) {
    conn.last_insert_rowid()
}

/// rusqlite `Connection::query_row`, reading column 0 of the first row as an `i32`; where
/// SQLite answers, the query and the value are added to `log`. The value is the database's and
/// is not stated.
#[verifier::external_body]
pub(crate) fn sql_query_i32(conn: &rusqlite::Connection, log: &mut StatementLog, sql: &str) -> (r: Result<i32, rusqlite::Error>)
    requires
        sql@ == user_version_sql(),
    ensures
        r matches Ok(v) ==> final(log).reads() == old(log).reads().push(
            SqlRead { sql: sql@, key: None, answer: ReadAnswer::Version(v) },
        ),
        r is Err ==> final(log).reads() == old(log).reads(),
        final(log).opened() == old(log).opened(),
        final(log).ran() == old(log).ran(),
{
    conn.query_row(sql, (), |row| row.get(0))
}

/// rusqlite `Connection::transaction`: begins a transaction, rolled back when dropped uncommitted.
#[verifier::external_body]
pub(crate) fn sql_transaction(conn: &mut rusqlite::Connection) -> (r: Result<
    rusqlite::Transaction<'_>,
    rusqlite::Error,
>) {
    conn.transaction()
}

/// rusqlite `Connection::execute` (through `Transaction`'s deref) of a statement without
/// parameters, which the `requires` fixes; where SQLite reports success, the statement is added
/// to `log`.
#[verifier::external_body]
pub(crate) fn sql_transaction_execute(tx: &rusqlite::Transaction<'_>, log: &mut StatementLog, sql: &str) -> (r: Result<
    usize,
    rusqlite::Error,
>)
    requires
        sql@ == create_sessions_sql() || sql@ == create_events_sql() || sql@ == set_version_sql(),
    ensures
        r is Ok ==> final(log).ran() == old(log).ran().push((sql@, SqlArgsView::Nothing)),
        r is Err ==> final(log).ran() == old(log).ran(),
        final(log).opened() == old(log).opened(),
        final(log).reads() == old(log).reads(),
{
    tx.execute(sql, ())
}

/// rusqlite `Transaction::commit`.
#[verifier::external_body]
pub(crate) fn sql_commit(tx: rusqlite::Transaction<'_>) -> (r: Result<(), rusqlite::Error>) {
    tx.commit()
}

/// rusqlite `Connection::prepare` and `Statement::query_map`, collecting every row as its
/// columns 0, 1 and 2 read by `Row::get` as `i64`, `String` and `Option<String>`; where SQLite
/// answers, the query and the rows are added to `log`. The rows are the database's and are not
/// stated.
#[verifier::external_body]
pub(crate) fn sql_session_rows(conn: &rusqlite::Connection, log: &mut StatementLog, sql: &str) -> (r: Result<
    Vec<(i64, String, Option<String>)>,
    rusqlite::Error,
>)
    requires
        sql@ == last_session_sql(),
    ensures
        r matches Ok(rows) ==> final(log).reads() == old(log).reads().push(
            SqlRead { sql: sql@, key: None, answer: ReadAnswer::Sessions(rows@) },
        ),
        r is Err ==> final(log).reads() == old(log).reads(),
        final(log).opened() == old(log).opened(),
        final(log).ran() == old(log).ran(),
{
    let mut stmt = conn.prepare(sql)?;
    let rows = stmt.query_map((), |row| Ok((row.get(0)?, row.get(1)?, row.get(2)?)))?;
    rows.collect()
}

/// rusqlite `Connection::prepare` and `Statement::query_map` with the one parameter `key`,
/// collecting every row as its column 0 read by `Row::get` as a `String`; where SQLite answers,
/// the query, the key and the rows are added to `log`. The rows are the database's and are not
/// stated.
#[verifier::external_body]
pub(crate) fn sql_text_rows(conn: &rusqlite::Connection, log: &mut StatementLog, sql: &str, key: i64) -> (r: Result<
    Vec<String>,
    rusqlite::Error,
>)
    requires
        sql@ == last_event_sql(),
    ensures
        r matches Ok(rows) ==> final(log).reads() == old(log).reads().push(
            SqlRead { sql: sql@, key: Some(key), answer: ReadAnswer::Texts(rows@) },
        ),
        r is Err ==> final(log).reads() == old(log).reads(),
        final(log).opened() == old(log).opened(),
        final(log).ran() == old(log).ran(),
{
    let mut stmt = conn.prepare(sql)?;
    let rows = stmt.query_map((key,), |row| row.get(0))?;
    rows.collect()
}

/// rusqlite `Connection::prepare` and `Statement::query_map` with the one parameter `key`,
/// collecting every row as its columns 0 and 1 read by `Row::get` as `String`s; where SQLite
/// answers, the query, the key and the rows are added to `log`. The rows are the database's and
/// are not stated.
#[verifier::external_body]
pub(crate) fn sql_text_pair_rows(conn: &rusqlite::Connection, log: &mut StatementLog, sql: &str, key: i64) -> (r: Result<
    Vec<(String, String)>,
    rusqlite::Error,
>)
    requires
        sql@ == session_events_sql(),
    ensures
        r matches Ok(rows) ==> final(log).reads() == old(log).reads().push(
            SqlRead { sql: sql@, key: Some(key), answer: ReadAnswer::TextPairs(rows@) },
        ),
        r is Err ==> final(log).reads() == old(log).reads(),
        final(log).opened() == old(log).opened(),
        final(log).ran() == old(log).ran(),
{
    let mut stmt = conn.prepare(sql)?;
    let rows = stmt.query_map((key,), |row| Ok((row.get(0)?, row.get(1)?)))?;
    rows.collect()
}

/// rusqlite's `Display` of an error (`ToString::to_string`). The text is not stated.
#[verifier::external_body]
pub(crate) fn sql_error_text(e: &rusqlite::Error) -> (s: String) {
    e.to_string()
}

} // verus!
