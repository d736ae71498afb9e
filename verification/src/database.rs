//! The session store: sessions and their events in SQLite, through rusqlite.
//!
//! What the library hands to the database, and what it makes of each answer, are stated
//! through the log that the calls into SQLite keep (see `sql`): the statements run, and the
//! queries answered with their answers. What the database answers is its own and is not
//! stated. Every successful write is also recorded, as a ghost journal of sessions and events, in
//! the order it was made. The accounting of active time over a session's events follows
//! chrono's arithmetic on instants, leap seconds included, and is verified exactly.

use vstd::prelude::*;
use crate::clock::{one_more_reading, reading_instant, ClockLog, chrono_diff, is_after, lemma_diff_without_leap_seconds, chrono_representable, format_rfc3339, parse_rfc3339, parsed_instant, rfc3339_of, TimeSpan, UtcTime, NANOS_PER_SEC};
use crate::text::str_eq;
use crate::sql::{
    create_events_sql, create_sessions_sql, end_session_sql, foreign_keys_sql, insert_event_sql, insert_session_sql,
    set_version_sql, sql_commit, sql_error_text, sql_execute, sql_last_insert_rowid, sql_open, sql_open_in_memory,
    sql_query_i32, sql_session_rows, sql_text_pair_rows, sql_text_rows, sql_transaction, sql_transaction_execute,
    user_version_sql, last_session_sql, last_event_sql, session_events_sql, ReadAnswer, SqlArgs, SqlArgsView, SqlRead,
    StatementLog,
};

verus! {

/// Why a database operation failed.
#[derive(Debug, Clone, PartialEq, Eq)]
pub enum DbError {
    /// The database could not be opened (SQLite's message).
    Open(String),
    /// Setting up the schema failed (SQLite's message).
    Migration(String),
    /// Writing a session or an event failed (SQLite's message).
    Write(String),
    /// Reading sessions or events failed (SQLite's message).
    Read(String),
    /// A stored time is not an RFC 3339 instant (the stored text).
    BadTimestamp(String),
    /// An instant lies outside the range that can be written down.
    TimeOutOfRange,
    /// The active time of a session exceeds the largest span.
    Overflow,
    /// The system clock could not be read as an instant.
    Clock,
}

/// A write that the library made to the database, as recorded in the journal.
pub enum DbWrite {
    /// A session row was inserted with this start time, and the database gave it this id.
    SessionCreated { id: i64, started_at: UtcTime },
    /// The end time of the session with this id was set.
    SessionEnded { id: i64, ended_at: UtcTime },
    /// An event row was inserted for the session with this id.
    EventLogged { session_id: i64, event_type: Seq<char>, created_at: UtcTime },
}

/// A session as stored in the database.
#[derive(Debug, Clone, PartialEq, Eq)]
pub struct DbSession {
    pub id: i64,
    pub started_at: UtcTime,
    pub ended_at: Option<UtcTime>,
}

/// The connection to the session store.
pub struct Database {
    conn: rusqlite::Connection,
    writes: Ghost<Seq<DbWrite>>,
    log: StatementLog,
    clock: ClockLog,
}

/// `r` is what a stored row `(id, started, ended)` gives: a session with both times read as
/// instants that name no leap second; where a time is not one, `BadTimestamp` with the first such
/// text.
pub open spec fn session_row_result(
    id: i64,
    started: Seq<char>,
    ended: Option<Seq<char>>,
    r: Result<DbSession, DbError>,
) -> bool {
    &&& r is Ok <==> parsed_instant(started) is Some && (ended matches Some(e) ==> parsed_instant(e) is Some)
    &&& r matches Ok(s) ==> s.id == id && Some(s.started_at) == parsed_instant(started) && match ended {
        Some(e) => s.ended_at == parsed_instant(e),
        None => s.ended_at is None,
    }
    &&& r matches Err(e) ==> e matches DbError::BadTimestamp(t) && (if parsed_instant(started) is None {
        t@ == started
    } else {
        ended matches Some(x) && t@ == x
    })
}

/// An optional text as plain values.
pub open spec fn opt_view(o: Option<String>) -> Option<Seq<char>> {
    match o {
        Some(t) => Some(t@),
        None => None,
    }
}

/// `r` is what the rows read for the newest session give: no rows, no session; otherwise the
/// session of the first row (see `session_row_result`).
pub open spec fn last_session_result(
    rows: Seq<(i64, String, Option<String>)>,
    r: Result<Option<DbSession>, DbError>,
) -> bool {
    if rows.len() == 0 {
        r == Ok::<Option<DbSession>, DbError>(None)
    } else {
        match r {
            Ok(Some(s)) => session_row_result(rows[0].0, rows[0].1@, opt_view(rows[0].2), Ok(s)),
            Ok(None) => false,
            Err(e) => session_row_result(rows[0].0, rows[0].1@, opt_view(rows[0].2), Err(e)),
        }
    }
}

/// What the rows read for a session's newest event give: no rows, no event type; otherwise the
/// type in the first row.
pub open spec fn last_event_result(rows: Seq<String>) -> Option<String> {
    if rows.len() == 0 { None } else { Some(rows[0]) }
}

impl DbSession {
    /// Builds a session from the texts of a stored row: both times must be RFC 3339 instants
    /// that name no leap second; the first that is not gives `BadTimestamp` with that text.
    pub fn from_row(id: i64, started: &str, ended: &Option<String>) -> (r: Result<DbSession, DbError>)
        ensures
            session_row_result(id, started@, opt_view(*ended), r),
    {
        let started_at = match parse_rfc3339(started) {
            Some(t) => t,
            None => { return Err(DbError::BadTimestamp(started.to_owned())); },
        };
        let ended_at = match ended {
            Some(e) => match parse_rfc3339(e.as_str()) {
                Some(t) => Some(t),
                None => { return Err(DbError::BadTimestamp(e.clone())); },
            },
            None => None,
        };
        Ok(DbSession { id, started_at, ended_at })
    }
}

/// The newest session from the rows read for it (see `last_session_result`).
pub fn last_session_of_rows(rows: &Vec<(i64, String, Option<String>)>) -> (r: Result<Option<DbSession>, DbError>)
    ensures
        last_session_result(rows@, r),
{
    if rows.len() == 0 {
        return Ok(None);
    }
    let row = &rows[0];
    match DbSession::from_row(row.0, row.1.as_str(), &row.2) {
        Ok(s) => Ok(Some(s)),
        Err(e) => Err(e),
    }
}

/// The type of a session's newest event from the rows read for it (see `last_event_result`).
pub fn last_event_of_rows(rows: &Vec<String>) -> (r: Option<String>)
    ensures
        r == last_event_result(rows@),
{
    if rows.len() == 0 { None } else { Some(rows[0].clone()) }
}

/// The statements that set up the schema of a database whose stored schema version is
/// `user_version`: where it is below 1, the `sessions` and `events` tables and the version 1;
/// otherwise none.
pub open spec fn schema_needed(user_version: i32) -> Seq<Seq<char>> {
    if user_version < 1 {
        seq![create_sessions_sql(), create_events_sql(), set_version_sql()]
    } else {
        Seq::empty()
    }
}

/// The statements that opening a database whose stored schema version is `user_version` runs:
/// foreign keys on, then the schema it needs (in one transaction).
pub open spec fn migration_run(user_version: i32) -> Seq<(Seq<char>, SqlArgsView)> {
    seq![(foreign_keys_sql(), SqlArgsView::Nothing)]
        + schema_needed(user_version).map_values(|sql: Seq<char>| (sql, SqlArgsView::Nothing))
}

/// `reads` is one query of the schema version, answered, and `ran` is what opening a database
/// with that version runs (`migration_run`).
pub open spec fn migrated(reads: Seq<SqlRead>, ran: Seq<(Seq<char>, SqlArgsView)>) -> bool {
    &&& reads.len() == 1
    &&& reads[0].sql == user_version_sql()
    &&& reads[0].key is None
    &&& reads[0].answer matches ReadAnswer::Version(v) && ran == migration_run(v)
}

/// The schema statements that a database whose stored schema version is `user_version` needs,
/// in the order they run (see `schema_needed`).
pub fn schema_statements_for(user_version: i32) -> (v: Vec<&'static str>)
    ensures
        v@.len() == schema_needed(user_version).len(),
        forall|i: int| 0 <= i < v@.len() ==> (#[trigger] v@[i])@ == schema_needed(user_version)[i],
{
    let mut v: Vec<&'static str> = Vec::new();
    if user_version < 1 {
        v.push("CREATE TABLE IF NOT EXISTS sessions (
                    id INTEGER PRIMARY KEY AUTOINCREMENT,
                    started_at TEXT NOT NULL,
                    ended_at TEXT,
                    created_at TEXT NOT NULL
                );");
        v.push("CREATE TABLE IF NOT EXISTS events (
                    id INTEGER PRIMARY KEY AUTOINCREMENT,
                    session_id INTEGER NOT NULL,
                    event_type TEXT NOT NULL,
                    created_at TEXT NOT NULL,
                    FOREIGN KEY(session_id) REFERENCES sessions(id) ON DELETE CASCADE
                );");
        v.push("PRAGMA user_version = 1;");
    }
    v
}

impl Database {
    /// The writes made through this connection, in order; empty when it was opened.
    pub closed spec fn journal(&self) -> Seq<DbWrite> {
        self.writes@
    }

    /// The statements that SQLite reported as run on this connection, with their parameters, in
    /// order, as the calls into SQLite logged them (the schema's included; reads are not listed).
    pub closed spec fn statements(&self) -> Seq<(Seq<char>, SqlArgsView)> {
        self.log.ran()
    }

    /// The queries that SQLite answered on this connection, with their keys and answers, in
    /// order, as the calls into SQLite logged them (the schema version's included).
    pub closed spec fn reads(&self) -> Seq<SqlRead> {
        self.log.reads()
    }

    /// The readings of the system clock taken by this connection's operations, in order.
    pub closed spec fn clock_readings(&self) -> Seq<Option<(u64, u32)>> {
        self.clock.readings()
    }

    /// The path of the file the database was opened from; `None` for one held in memory.
    pub closed spec fn path(&self) -> Option<Seq<char>> {
        match self.log.opened() {
            Some(p) => p,
            None => None,
        }
    }

    /// Reads the system clock for an operation on this store and records the reading (see
    /// `UtcTime::read_clock`); the store itself is untouched.
    pub fn read_clock(&mut self) -> (r: Option<UtcTime>)
        ensures
            one_more_reading(old(self).clock_readings(), final(self).clock_readings()),
            r == reading_instant(final(self).clock_readings().last()),
            r matches Some(t) ==> t.wf() && chrono_representable(t.secs, t.nanos) && t.secs >= 0,
            final(self).journal() == old(self).journal(),
            final(self).statements() == old(self).statements(),
            final(self).reads() == old(self).reads(),
            final(self).path() == old(self).path(),
    {
        UtcTime::read_clock(&mut self.clock)
    }

    /// Opens a database held in memory and sets up its schema. Whether SQLite opens it and
    /// accepts the schema is SQLite's to say; a failure to open gives `Open`, one while setting up
    /// the schema `Migration`.
    pub fn in_memory() -> (r: Result<Database, DbError>)
        ensures
            r matches Ok(db) ==> db.journal() == Seq::<DbWrite>::empty() && db.path() is None
                && migrated(db.reads(), db.statements()) && db.clock_readings().len() == 0,
            r matches Err(e) ==> e is Open || e is Migration,
    {
        let mut log = StatementLog::new();
        match sql_open_in_memory(&mut log) {
            Ok(conn) => Database::with_connection(conn, log),
            Err(e) => Err(DbError::Open(sql_error_text(&e))),
        }
    }

    /// Opens (creating it where absent) the database file at `path` and sets up its schema.
    /// Whether SQLite opens it and accepts the schema is SQLite's to say; a failure to open gives
    /// `Open`, one while setting up the schema `Migration`.
    pub fn new(path: &str) -> (r: Result<Database, DbError>)
        ensures
            r matches Ok(db) ==> db.journal() == Seq::<DbWrite>::empty() && db.path() == Some(path@)
                && migrated(db.reads(), db.statements()) && db.clock_readings().len() == 0,
            r matches Err(e) ==> e is Open || e is Migration,
    {
        let mut log = StatementLog::new();
        match sql_open(path, &mut log) {
            Ok(conn) => Database::with_connection(conn, log),
            Err(e) => Err(DbError::Open(sql_error_text(&e))),
        }
    }

    fn with_connection(conn: rusqlite::Connection, log: StatementLog) -> (r: Result<Database, DbError>)
        requires
            log.ran() == Seq::<(Seq<char>, SqlArgsView)>::empty(),
            log.reads() == Seq::<SqlRead>::empty(),
        ensures
            r matches Ok(db) ==> db.journal() == Seq::<DbWrite>::empty()
                && db.path() == (match log.opened() { Some(p) => p, None => None::<Seq<char>> })
                && migrated(db.reads(), db.statements()) && db.clock_readings().len() == 0,
            r matches Err(e) ==> e is Migration,
    {
        let mut db = Database { conn, writes: Ghost(Seq::empty()), log, clock: ClockLog::new() };
        match db.migrate() {
            Ok(()) => {
                assert(db.statements() =~= Seq::<(Seq<char>, SqlArgsView)>::empty() + db.statements());
                assert(db.reads() =~= seq![db.reads().last()]);
                Ok(db)
            },
            Err(e) => Err(e),
        }
    }

    /// Turns foreign keys on, reads the stored schema version and runs the schema statements it
    /// needs (`schema_statements_for`: where the version is below 1, the `sessions` and `events`
    /// tables and the version 1), in one transaction.
    fn migrate(&mut self) -> (r: Result<(), DbError>)
        ensures
            final(self).journal() == old(self).journal(),
            final(self).clock_readings() == old(self).clock_readings(),
            final(self).path() == old(self).path(),
            r is Ok ==> final(self).reads().len() == old(self).reads().len() + 1
                && final(self).reads().drop_last() == old(self).reads()
                && final(self).reads().last().sql == user_version_sql()
                && final(self).reads().last().key is None
                && (final(self).reads().last().answer matches ReadAnswer::Version(v)
                    && final(self).statements() == old(self).statements() + migration_run(v)),
            r matches Err(e) ==> e is Migration,
    {
        let ghost before = self.statements();
        let fk = "PRAGMA foreign_keys = ON;";
        if let Err(e) = sql_execute(&self.conn, &mut self.log, fk, SqlArgs::Nothing) {
            return Err(DbError::Migration(sql_error_text(&e)));
        }
        let user_version = match sql_query_i32(&self.conn, &mut self.log, "PRAGMA user_version;") {
            Ok(v) => v,
            Err(e) => { return Err(DbError::Migration(sql_error_text(&e))); },
        };
        let ghost after_read = self.reads();
        let plan = schema_statements_for(user_version);
        let ghost need = schema_needed(user_version);
        if plan.len() > 0 {
            let tx = match sql_transaction(&mut self.conn) {
                Ok(tx) => tx,
                Err(e) => { return Err(DbError::Migration(sql_error_text(&e))); },
            };
            let mut i: usize = 0;
            assert(need.take(0).map_values(|sql: Seq<char>| (sql, SqlArgsView::Nothing)) =~= Seq::<(Seq<char>, SqlArgsView)>::empty());
            while i < plan.len()
                invariant
                    0 <= i <= plan.len(),
                    plan@.len() == need.len(),
                    forall|k: int| 0 <= k < plan@.len() ==> (#[trigger] plan@[k])@ == need[k],
                    need == schema_needed(user_version),
                    self.log.ran() == before.push((foreign_keys_sql(), SqlArgsView::Nothing))
                        + need.take(i as int).map_values(|sql: Seq<char>| (sql, SqlArgsView::Nothing)),
                    self.log.reads() == after_read,
                    self.log.opened() == old(self).log.opened(),
                    self.writes == old(self).writes,
                    self.clock == old(self).clock,
                decreases plan.len() - i,
            {
                let sql = plan[i];
                assert(sql@ == need[i as int]);
                if let Err(e) = sql_transaction_execute(&tx, &mut self.log, sql) {
                    return Err(DbError::Migration(sql_error_text(&e)));
                }
                assert(need.take(i as int + 1).map_values(|sql: Seq<char>| (sql, SqlArgsView::Nothing))
                    =~= need.take(i as int).map_values(|sql: Seq<char>| (sql, SqlArgsView::Nothing)).push((need[i as int], SqlArgsView::Nothing)));
                i = i + 1;
            }
            if let Err(e) = sql_commit(tx) {
                return Err(DbError::Migration(sql_error_text(&e)));
            }
            assert(need.take(need.len() as int) =~= need);
        } else {
            assert(need.map_values(|sql: Seq<char>| (sql, SqlArgsView::Nothing)) =~= Seq::<(Seq<char>, SqlArgsView)>::empty());
        }
        assert(self.statements() =~= before + migration_run(user_version));
        Ok(())
    }

    /// Inserts a session that started at `started_at`, with the current time as its creation
    /// time, and returns the id the database gave it. A start time that chrono cannot write
    /// gives `TimeOutOfRange`; an unreadable clock `Clock`; otherwise whether the insert succeeds
    /// is SQLite's to say, and a failure gives `Write`. On success the insert ran with the start
    /// time's RFC 3339 text and the creation time's.
    pub fn create_session(&mut self, started_at: UtcTime) -> (r: Result<i64, DbError>)
        ensures
            (r == Err::<i64, DbError>(DbError::TimeOutOfRange)) <==> !chrono_representable(started_at.secs, started_at.nanos),
            r matches Err(e) ==> e is TimeOutOfRange || e is Clock || e is Write,
            r matches Ok(id) ==> final(self).journal() == old(self).journal().push(
                DbWrite::SessionCreated { id, started_at },
            ),
            r is Ok ==> final(self).statements().drop_last() == old(self).statements()
                && final(self).statements().len() == old(self).statements().len() + 1
                && (final(self).statements().last() matches (sql, SqlArgsView::TwoTexts(started, created))
                    && sql == insert_session_sql() && started == rfc3339_of(started_at.secs, started_at.nanos)
                    && exists|c: UtcTime| c.wf() && created == rfc3339_of(c.secs, c.nanos)),
            !chrono_representable(started_at.secs, started_at.nanos) ==> final(self).clock_readings() == old(self).clock_readings(),
            chrono_representable(started_at.secs, started_at.nanos) ==> one_more_reading(old(self).clock_readings(), final(self).clock_readings()),
            (r == Err::<i64, DbError>(DbError::Clock)) <==> chrono_representable(started_at.secs, started_at.nanos)
                && reading_instant(final(self).clock_readings().last()) is None,
            r is Ok ==> (final(self).statements().last() matches (_, SqlArgsView::TwoTexts(_, created))
                && (reading_instant(final(self).clock_readings().last()) matches Some(c)
                    && created == rfc3339_of(c.secs, c.nanos))),
            r is Err ==> final(self).journal() == old(self).journal() && final(self).statements() == old(self).statements(),
            final(self).path() == old(self).path(),
            final(self).reads() == old(self).reads(),
    {
        let started_text = match format_rfc3339(&started_at) {
            Some(t) => t,
            None => { return Err(DbError::TimeOutOfRange); },
        };
        let created = match UtcTime::read_clock(&mut self.clock) {
            Some(t) => t,
            None => { return Err(DbError::Clock); },
        };
        let created_text = match format_rfc3339(&created) {
            Some(t) => t,
            None => { return Err(DbError::TimeOutOfRange); },
        };
        let sql = "INSERT INTO sessions (started_at, created_at) VALUES (?1, ?2)";
        let args = SqlArgs::TwoTexts(started_text, created_text);
        match sql_execute(&self.conn, &mut self.log, sql, args) {
            Ok(_) => {},
            Err(e) => { return Err(DbError::Write(sql_error_text(&e))); },
        }
        let id = sql_last_insert_rowid(&self.conn);
        proof {
            self.writes@ = self.writes@.push(DbWrite::SessionCreated { id, started_at });
            assert(self.statements().drop_last() =~= old(self).statements());
        }
        Ok(id)
    }

    /// Sets the end time of the session `session_id`. An end time that chrono cannot write gives
    /// `TimeOutOfRange`; otherwise whether the update succeeds is SQLite's to say, and a failure
    /// gives `Write`. On success the update ran with the end time's RFC 3339 text and the id.
    pub fn end_session(&mut self, session_id: i64, ended_at: UtcTime) -> (r: Result<(), DbError>)
        ensures
            (r == Err::<(), DbError>(DbError::TimeOutOfRange)) <==> !chrono_representable(ended_at.secs, ended_at.nanos),
            r matches Err(e) ==> e is TimeOutOfRange || e is Write,
            r is Ok ==> final(self).journal() == old(self).journal().push(
                DbWrite::SessionEnded { id: session_id, ended_at },
            ),
            r is Ok ==> final(self).statements() == old(self).statements().push((
                end_session_sql(),
                SqlArgsView::TextInt(rfc3339_of(ended_at.secs, ended_at.nanos), session_id),
            )),
            r is Err ==> final(self).journal() == old(self).journal() && final(self).statements() == old(self).statements(),
            final(self).path() == old(self).path(),
            final(self).clock_readings() == old(self).clock_readings(),
            final(self).reads() == old(self).reads(),
    {
        let ended_text = match format_rfc3339(&ended_at) {
            Some(t) => t,
            None => { return Err(DbError::TimeOutOfRange); },
        };
        let sql = "UPDATE sessions SET ended_at = ?1 WHERE id = ?2";
        let args = SqlArgs::TextInt(ended_text, session_id);
        match sql_execute(&self.conn, &mut self.log, sql, args) {
            Ok(_) => {},
            Err(e) => { return Err(DbError::Write(sql_error_text(&e))); },
        }
        proof {
            self.writes@ = self.writes@.push(DbWrite::SessionEnded { id: session_id, ended_at });
        }
        Ok(())
    }

    /// Inserts an event of type `event_type` (START, PAUSE, RESUME, STOP, AUTO_PAUSE) for the
    /// session `session_id`. A time that chrono cannot write gives `TimeOutOfRange`; otherwise
    /// whether the insert succeeds is SQLite's to say (an unknown session is refused by the
    /// foreign key), and a failure gives `Write`. On success the insert ran with the id, the
    /// event type and the time's RFC 3339 text.
    pub fn log_event(&mut self, session_id: i64, event_type: &str, created_at: UtcTime) -> (r: Result<
        (),
        DbError,
    >)
        ensures
            (r == Err::<(), DbError>(DbError::TimeOutOfRange)) <==> !chrono_representable(created_at.secs, created_at.nanos),
            r matches Err(e) ==> e is TimeOutOfRange || e is Write,
            r is Ok ==> final(self).journal() == old(self).journal().push(
                DbWrite::EventLogged { session_id, event_type: event_type@, created_at },
            ),
            r is Ok ==> final(self).statements() == old(self).statements().push((
                insert_event_sql(),
                SqlArgsView::IntTwoTexts(session_id, event_type@, rfc3339_of(created_at.secs, created_at.nanos)),
            )),
            r is Err ==> final(self).journal() == old(self).journal() && final(self).statements() == old(self).statements(),
            final(self).path() == old(self).path(),
            final(self).clock_readings() == old(self).clock_readings(),
            final(self).reads() == old(self).reads(),
    {
        let created_text = match format_rfc3339(&created_at) {
            Some(t) => t,
            None => { return Err(DbError::TimeOutOfRange); },
        };
        let sql = "INSERT INTO events (session_id, event_type, created_at) VALUES (?1, ?2, ?3)";
        let args = SqlArgs::IntTwoTexts(session_id, event_type.to_owned(), created_text);
        match sql_execute(&self.conn, &mut self.log, sql, args) {
            Ok(_) => {},
            Err(e) => { return Err(DbError::Write(sql_error_text(&e))); },
        }
        proof {
            self.writes@ = self.writes@.push(
                DbWrite::EventLogged { session_id, event_type: event_type@, created_at },
            );
        }
        Ok(())
    }

    /// The newest session (the one with the largest id), if any: runs `last_session_sql` and
    /// gives what the rows SQLite answered give (`last_session_result`); the query and its answer
    /// are logged in `reads`. What the rows hold is the database's; a failed query gives `Read`.
    pub fn get_last_session(&mut self) -> (r: Result<Option<DbSession>, DbError>)
        ensures
            final(self).journal() == old(self).journal(),
            final(self).statements() == old(self).statements(),
            final(self).path() == old(self).path(),
            final(self).clock_readings() == old(self).clock_readings(),
            r matches Err(DbError::Read(_)) ==> final(self).reads() == old(self).reads(),
            !(r matches Err(DbError::Read(_))) ==> one_more_read(old(self).reads(), final(self).reads(), last_session_sql(), None)
                && (final(self).reads().last().answer matches ReadAnswer::Sessions(rows) && last_session_result(rows, r)),
            r matches Err(e) ==> e is Read || e is BadTimestamp,
    {
        let rows = match sql_session_rows(
            &self.conn,
            &mut self.log,
            "SELECT id, started_at, ended_at FROM sessions ORDER BY id DESC LIMIT 1",
        ) {
            Ok(rows) => rows,
            Err(e) => { return Err(DbError::Read(sql_error_text(&e))); },
        };
        assert(self.reads().drop_last() =~= old(self).reads());
        last_session_of_rows(&rows)
    }

    /// The type of the newest event (largest id) of the session `session_id`, if any: runs
    /// `last_event_sql` with `session_id` and gives what the rows SQLite answered give
    /// (`last_event_result`); the query, the key and the answer are logged in `reads`. What the
    /// rows hold is the database's; a failed query gives `Read`.
    pub fn get_last_event_type(&mut self, session_id: i64) -> (r: Result<Option<String>, DbError>)
        ensures
            final(self).journal() == old(self).journal(),
            final(self).statements() == old(self).statements(),
            final(self).path() == old(self).path(),
            final(self).clock_readings() == old(self).clock_readings(),
            r is Err ==> (r matches Err(DbError::Read(_))) && final(self).reads() == old(self).reads(),
            r is Ok ==> one_more_read(old(self).reads(), final(self).reads(), last_event_sql(), Some(session_id))
                && (final(self).reads().last().answer matches ReadAnswer::Texts(rows)
                    && r == Ok::<Option<String>, DbError>(last_event_result(rows))),
    {
        match sql_text_rows(
            &self.conn,
            &mut self.log,
            "SELECT event_type FROM events WHERE session_id = ?1 ORDER BY id DESC LIMIT 1",
            session_id,
        ) {
            Ok(rows) => {
                assert(self.reads().drop_last() =~= old(self).reads());
                Ok(last_event_of_rows(&rows))
            },
            Err(e) => Err(DbError::Read(sql_error_text(&e))),
        }
    }

    /// The active time of the session `session_id` up to now: runs `session_events_sql` with
    /// `session_id` and gives what the rows SQLite answered give (`elapsed_answer`); the query,
    /// the key and the answer are logged in `reads`. The clock is read only where an interval is
    /// still open. A failed query gives `Read`; an unreadable clock `Clock`; a stored time that
    /// chrono cannot read `BadTimestamp`; a total beyond the largest span `Overflow`.
    pub fn get_session_elapsed_time(&mut self, session_id: i64) -> (r: Result<TimeSpan, DbError>)
        ensures
            final(self).journal() == old(self).journal(),
            final(self).statements() == old(self).statements(),
            final(self).path() == old(self).path(),
            r matches Err(DbError::Read(_)) ==> final(self).reads() == old(self).reads()
                && final(self).clock_readings() == old(self).clock_readings(),
            !(r matches Err(DbError::Read(_))) ==> one_more_read(old(self).reads(), final(self).reads(), session_events_sql(), Some(session_id))
                && (final(self).reads().last().answer matches ReadAnswer::TextPairs(rows)
                    && elapsed_answer(rows, old(self).clock_readings(), final(self).clock_readings(), r)),
            r matches Ok(s) ==> s.nanos < NANOS_PER_SEC,
            r matches Err(e) ==> e is Read || e is Clock || e is BadTimestamp || e is Overflow,
    {
        let rows = match sql_text_pair_rows(
            &self.conn,
            &mut self.log,
            "SELECT event_type, created_at FROM events WHERE session_id = ?1 ORDER BY id ASC",
            session_id,
        ) {
            Ok(rows) => rows,
            Err(e) => { return Err(DbError::Read(sql_error_text(&e))); },
        };
        assert(self.reads().drop_last() =~= old(self).reads());
        let events = match parse_event_rows(&rows) {
            Ok(events) => events,
            Err(e) => {
                assert forall|now: UtcTime| #[trigger] elapsed_result(rows@, now, Err::<TimeSpan, DbError>(e)) by {}
                return Err(e);
            },
        };
        let open = has_open_interval(&events);
        let now = if open {
            match UtcTime::read_clock(&mut self.clock) {
                Some(t) => t,
                None => { return Err(DbError::Clock); },
            }
        } else {
            UtcTime { secs: 0, nanos: 0 }
        };
        let r = match active_time(&events, now) {
            Some(s) => Ok(s),
            None => Err(DbError::Overflow),
        };
        assert(elapsed_result(rows@, now, r));
        proof {
            if !open {
                assert forall|other: UtcTime| #[trigger] elapsed_result(rows@, other, r) by {
                    lemma_closed_session_time_is_fixed(events_view(events@), now, other);
                }
            }
        }
        r
    }
}

/// `after` is `before` with one more query answered: `sql`, with `key` bound to its parameter.
pub open spec fn one_more_read(before: Seq<SqlRead>, after: Seq<SqlRead>, sql: Seq<char>, key: Option<i64>) -> bool {
    &&& after.len() == before.len() + 1
    &&& after.drop_last() == before
    &&& after.last().sql == sql
    &&& after.last().key == key
}

/// `r` is what a session's stored event rows give as its active time up to now, where the clock
/// readings were `before` and became `after`. Where the times can be read and an interval is
/// still open, one reading of the clock was taken, and `r` is the active time at the instant it
/// names (the open interval counted up to it), or `Clock` where it names none. Otherwise no
/// reading was taken, and `r` is the active time at every instant alike (see
/// `elapsed_result`).
pub open spec fn elapsed_answer(
    rows: Seq<(String, String)>,
    before: Seq<Option<(u64, u32)>>,
    after: Seq<Option<(u64, u32)>>,
    r: Result<TimeSpan, DbError>,
) -> bool {
    if parsed_events(rows) matches Some(ev) && active_fold(ev).1 is Some {
        &&& one_more_reading(before, after)
        &&& match reading_instant(after.last()) {
            Some(now) => now.wf() && elapsed_result(rows, now, r),
            None => r == Err::<TimeSpan, DbError>(DbError::Clock),
        }
    } else {
        &&& after == before
        &&& forall|now: UtcTime| #[trigger] elapsed_result(rows, now, r)
    }
}

/// Whether an interval is still open after a session's events, in order (see `active_fold`).
pub fn has_open_interval(events: &Vec<(String, UtcTime)>) -> (r: bool)
    ensures
        r == active_fold(events_view(events@)).1 is Some,
{
    let ghost ev = events_view(events@);
    let mut open = false;
    let mut i: usize = 0;
    while i < events.len()
        invariant
            0 <= i <= events.len(),
            ev == events_view(events@),
            ev.len() == events@.len(),
            open == active_fold(ev.take(i as int)).1 is Some,
        decreases events.len() - i,
    {
        assert(ev.take(i as int + 1).drop_last() =~= ev.take(i as int));
        assert(ev.take(i as int + 1).last() == ev[i as int]);
        assert(ev[i as int] == (events@[i as int].0@, events@[i as int].1));
        let ty = events[i].0.as_str();
        if str_eq(ty, "START") || str_eq(ty, "RESUME") {
            open = true;
        } else if str_eq(ty, "PAUSE") || str_eq(ty, "AUTO_PAUSE") || str_eq(ty, "STOP") {
            open = false;
        }
        i = i + 1;
    }
    assert(ev.take(ev.len() as int) =~= ev);
    open
}


/// An event type that starts an active interval.
pub open spec fn opens_interval(t: Seq<char>) -> bool {
    t == "START"@ || t == "RESUME"@
}

/// An event type that ends an active interval.
pub open spec fn closes_interval(t: Seq<char>) -> bool {
    t == "PAUSE"@ || t == "AUTO_PAUSE"@ || t == "STOP"@
}

/// `d` where it is not negative, else zero.
pub open spec fn nonneg(d: int) -> int {
    if d >= 0 { d } else { 0 }
}

/// Walks a session's events in order: the nanoseconds of active time in the intervals that
/// have ended, and the start of the interval still open, if any. A start or resume opens an
/// interval (replacing one already open); a pause, automatic pause or stop ends the open one
/// and adds its length where that is not negative; other event types change nothing.
pub open spec fn active_fold(events: Seq<(Seq<char>, UtcTime)>) -> (int, Option<UtcTime>)
    decreases events.len(),
{
    if events.len() == 0 {
        (0, None)
    } else {
        let prev = active_fold(events.drop_last());
        let (ty, at) = events.last();
        if opens_interval(ty) {
            (prev.0, Some(at))
        } else if closes_interval(ty) {
            match prev.1 {
                Some(s) => (prev.0 + nonneg(chrono_diff(at, s)), None),
                None => (prev.0, None),
            }
        } else {
            prev
        }
    }
}

/// The active time of a session in nanoseconds at instant `now`: the ended intervals, and the
/// open one counted up to `now`.
pub open spec fn active_nanos(events: Seq<(Seq<char>, UtcTime)>, now: UtcTime) -> int {
    let f = active_fold(events);
    f.0 + match f.1 {
        Some(s) => if is_after(now, s) { nonneg(chrono_diff(now, s)) } else { 0 },
        None => 0,
    }
}

/// While no interval is open (the session is paused or stopped), its active time stays the
/// same as time passes.
pub proof fn lemma_closed_session_time_is_fixed(events: Seq<(Seq<char>, UtcTime)>, now1: UtcTime, now2: UtcTime)
    requires
        active_fold(events).1 is None,
    ensures
        active_nanos(events, now1) == active_nanos(events, now2),
{
}

/// A session's active time never shrinks as time passes, where neither the current times nor
/// the start of the open interval name a leap second.
pub proof fn lemma_active_time_grows_with_now(events: Seq<(Seq<char>, UtcTime)>, now1: UtcTime, now2: UtcTime)
    requires
        now1.wf(),
        now2.wf(),
        active_fold(events).1 matches Some(s) ==> s.wf(),
        now1.instant() <= now2.instant(),
    ensures
        active_nanos(events, now1) <= active_nanos(events, now2),
{
    if let Some(s) = active_fold(events).1 {
        lemma_diff_without_leap_seconds(now1, s);
        lemma_diff_without_leap_seconds(now2, s);
    }
}

/// An event type that opens or closes an interval.
pub open spec fn marks_interval(t: Seq<char>) -> bool {
    opens_interval(t) || closes_interval(t)
}

/// The position of the last event before position `j` that opens or closes an interval.
pub open spec fn last_marker_before(events: Seq<(Seq<char>, UtcTime)>, j: int) -> Option<int>
    decreases j,
{
    if j <= 0 {
        None
    } else if marks_interval(events[j - 1].0) {
        Some(j - 1)
    } else {
        last_marker_before(events, j - 1)
    }
}

/// What the event at position `j` adds to the active time: where it closes an interval and the
/// last event before it that opens or closes one opens it, the time between the two where that
/// is not negative; otherwise nothing.
pub open spec fn interval_ending_at(events: Seq<(Seq<char>, UtcTime)>, j: int) -> int {
    if closes_interval(events[j].0) {
        match last_marker_before(events, j) {
            Some(i) => if opens_interval(events[i].0) {
                nonneg(chrono_diff(events[j].1, events[i].1))
            } else {
                0
            },
            None => 0,
        }
    } else {
        0
    }
}

/// The sum of what the first `n` events add to the active time.
pub open spec fn closed_intervals_sum(events: Seq<(Seq<char>, UtcTime)>, n: int) -> int
    decreases n,
{
    if n <= 0 { 0 } else { closed_intervals_sum(events, n - 1) + interval_ending_at(events, n - 1) }
}

proof fn lemma_last_marker_in_range(events: Seq<(Seq<char>, UtcTime)>, j: int)
    ensures
        last_marker_before(events, j) matches Some(i) ==> 0 <= i < j && marks_interval(events[i].0),
    decreases j,
{
    if j > 0 {
        lemma_last_marker_in_range(events, j - 1);
    }
}

proof fn lemma_open_is_not_close(t: Seq<char>)
    ensures
        !(opens_interval(t) && closes_interval(t)),
{
    reveal_strlit("START");
    reveal_strlit("RESUME");
    reveal_strlit("PAUSE");
    reveal_strlit("AUTO_PAUSE");
    reveal_strlit("STOP");
    assert("START"@[0] != "PAUSE"@[0]);
    assert("START"@ != "PAUSE"@);
    assert("START"@.len() != "AUTO_PAUSE"@.len() && "START"@.len() != "STOP"@.len());
    assert("RESUME"@.len() != "PAUSE"@.len() && "RESUME"@.len() != "AUTO_PAUSE"@.len());
    assert("RESUME"@.len() != "STOP"@.len());
}

proof fn lemma_fold_of_prefix(events: Seq<(Seq<char>, UtcTime)>, n: int)
    requires
        0 <= n <= events.len(),
    ensures
        active_fold(events.take(n)).0 == closed_intervals_sum(events, n),
        active_fold(events.take(n)).1 == match last_marker_before(events, n) {
            Some(i) => if opens_interval(events[i].0) { Some(events[i].1) } else { None },
            None => None,
        },
    decreases n,
{
    if n > 0 {
        lemma_fold_of_prefix(events, n - 1);
        lemma_last_marker_in_range(events, n - 1);
        lemma_open_is_not_close(events[n - 1].0);
        assert(events.take(n).drop_last() =~= events.take(n - 1));
        assert(events.take(n).last() == events[n - 1]);
    }
}

/// Where the last event that opens or closes an interval closes it (the session is paused or
/// stopped), the active time of a session is the sum, over each event that closes an interval
/// and whose nearest earlier opening-or-closing event opens one, of the time between the two
/// where that is not negative; events of other types count for nothing, and the current time
/// plays no part.
pub proof fn lemma_active_time_is_sum_of_intervals(events: Seq<(Seq<char>, UtcTime)>, now: UtcTime)
    requires
        last_marker_before(events, events.len() as int) matches Some(i) ==> 0 <= i < events.len()
            && closes_interval(events[i].0),
    ensures
        active_nanos(events, now) == closed_intervals_sum(events, events.len() as int),
{
    lemma_fold_of_prefix(events, events.len() as int);
    lemma_last_marker_in_range(events, events.len() as int);
    if let Some(i) = last_marker_before(events, events.len() as int) {
        lemma_open_is_not_close(events[i].0);
    }
    assert(events.take(events.len() as int) =~= events);
}

/// A running session's active time reaches up to the clock: where the last event of a session
/// that opens or closes an interval opens one (a START or RESUME with no later PAUSE,
/// AUTO_PAUSE or STOP), one reading of the clock was taken while its active time was worked
/// out, and the active time is the sum of the closed intervals plus the time from that event to
/// the instant the reading names, where that instant comes after it.
pub proof fn lemma_open_interval_counts_up_to_the_clock(
    rows: Seq<(String, String)>,
    before: Seq<Option<(u64, u32)>>,
    after: Seq<Option<(u64, u32)>>,
    r: Result<TimeSpan, DbError>,
    ev: Seq<(Seq<char>, UtcTime)>,
    i: int,
)
    requires
        elapsed_answer(rows, before, after, r),
        parsed_events(rows) == Some(ev),
        last_marker_before(ev, ev.len() as int) == Some(i),
        0 <= i < ev.len() && opens_interval(ev[i].0),
        r is Ok,
    ensures
        after.len() == before.len() + 1,
        after.drop_last() == before,
        reading_instant(after.last()) matches Some(now) && (r matches Ok(s) && s.total_nanos()
            == closed_intervals_sum(ev, ev.len() as int)
            + if is_after(now, ev[i].1) { nonneg(chrono_diff(now, ev[i].1)) } else { 0 }),
{
    lemma_fold_of_prefix(ev, ev.len() as int);
    assert(ev.take(ev.len() as int) =~= ev);
}

proof fn lemma_shift_after_resume_prefix(
    events1: Seq<(Seq<char>, UtcTime)>,
    events2: Seq<(Seq<char>, UtcTime)>,
    k: int,
    delta: int,
    n: int,
)
    requires
        events1.len() == events2.len(),
        0 <= k < events1.len(),
        events1[k].0 == "RESUME"@,
        forall|j: int| 0 <= j < events1.len() ==> #[trigger] events2[j].0 == events1[j].0,
        forall|j: int| 0 <= j < k ==> #[trigger] events2[j].1 == events1[j].1,
        forall|j: int| k <= j < events1.len() ==> #[trigger] events2[j].1.instant() == events1[j].1.instant() + delta,
        forall|j: int| k <= j < events1.len() ==> (#[trigger] events1[j]).1.wf(),
        forall|j: int| k <= j < events1.len() ==> (#[trigger] events2[j]).1.wf(),
        0 <= n <= events1.len(),
    ensures
        n <= k ==> active_fold(events1.take(n)) == active_fold(events2.take(n)),
        n > k ==> active_fold(events1.take(n)).0 == active_fold(events2.take(n)).0,
        n > k ==> match (active_fold(events1.take(n)).1, active_fold(events2.take(n)).1) {
            (Some(a), Some(b)) => b.instant() == a.instant() + delta && a.wf() && b.wf(),
            (None, None) => true,
            _ => false,
        },
    decreases n,
{
    if n > 0 {
        lemma_shift_after_resume_prefix(events1, events2, k, delta, n - 1);
        assert(events1.take(n).drop_last() =~= events1.take(n - 1));
        assert(events2.take(n).drop_last() =~= events2.take(n - 1));
        assert(events1.take(n).last() == events1[n - 1]);
        assert(events2.take(n).last() == events2[n - 1]);
        assert(events2[n - 1].0 == events1[n - 1].0);
        if n <= k {
            assert(events2[n - 1].1 == events1[n - 1].1);
        } else {
            assert(events2[n - 1].1.instant() == events1[n - 1].1.instant() + delta);
            assert(events1[n - 1].1.wf() && events2[n - 1].1.wf());
            if n - 1 > k {
                if let (Some(a), Some(b)) = (active_fold(events1.take(n - 1)).1, active_fold(events2.take(n - 1)).1) {
                    lemma_diff_without_leap_seconds(events1[n - 1].1, a);
                    lemma_diff_without_leap_seconds(events2[n - 1].1, b);
                }
            }
        }
    }
}

/// Time spent paused is not counted: take two histories of a session with the same event
/// types, equal up to some RESUME, and with every time from that RESUME on later by the same
/// `delta` in the second (the pause before it lasted longer), where no time from that RESUME on
/// names a leap second. Where the first ends paused or stopped, so does the second, and both
/// have the same active time, whatever the current times.
pub proof fn lemma_longer_pause_same_active_time(
    events1: Seq<(Seq<char>, UtcTime)>,
    events2: Seq<(Seq<char>, UtcTime)>,
    k: int,
    delta: int,
    now1: UtcTime,
    now2: UtcTime,
)
    requires
        events1.len() == events2.len(),
        0 <= k < events1.len(),
        events1[k].0 == "RESUME"@,
        forall|j: int| 0 <= j < events1.len() ==> #[trigger] events2[j].0 == events1[j].0,
        forall|j: int| 0 <= j < k ==> #[trigger] events2[j].1 == events1[j].1,
        forall|j: int| k <= j < events1.len() ==> #[trigger] events2[j].1.instant() == events1[j].1.instant() + delta,
        forall|j: int| k <= j < events1.len() ==> (#[trigger] events1[j]).1.wf(),
        forall|j: int| k <= j < events1.len() ==> (#[trigger] events2[j]).1.wf(),
        delta >= 0,
        active_fold(events1).1 is None,
    ensures
        active_fold(events2).1 is None,
        active_nanos(events1, now1) == active_nanos(events2, now2),
{
    let n = events1.len() as int;
    lemma_shift_after_resume_prefix(events1, events2, k, delta, n);
    assert(events1.take(n) =~= events1);
    assert(events2.take(n) =~= events2);
}

/// The events as plain values.
pub open spec fn events_view(events: Seq<(String, UtcTime)>) -> Seq<(Seq<char>, UtcTime)> {
    events.map_values(|e: (String, UtcTime)| (e.0@, e.1))
}

/// The stored event rows, with each time read as an instant.
pub open spec fn parsed_events(rows: Seq<(String, String)>) -> Option<Seq<(Seq<char>, UtcTime)>>
    decreases rows.len(),
{
    if rows.len() == 0 {
        Some(Seq::empty())
    } else {
        match (parsed_events(rows.drop_last()), parsed_instant(rows.last().1@)) {
            (Some(prev), Some(t)) => Some(prev.push((rows.last().0@, t))),
            _ => None,
        }
    }
}

proof fn lemma_fold_total_grows(events: Seq<(Seq<char>, UtcTime)>, i: int)
    requires
        0 <= i <= events.len(),
    ensures
        active_fold(events.take(i)).0 <= active_fold(events).0,
        active_fold(events).0 >= 0,
    decreases events.len(),
{
    if events.len() > 0 {
        if i < events.len() {
            lemma_fold_total_grows(events.drop_last(), i);
            assert(events.drop_last().take(i) =~= events.take(i));
        } else {
            assert(events.take(i) =~= events);
            lemma_fold_total_grows(events.drop_last(), 0);
        }
    }
}

/// The nanoseconds from `from` to `to` as chrono counts them, where that is not negative; else
/// zero.
fn forward_nanos(from: &UtcTime, to: &UtcTime) -> (d: u128)
    ensures
        d == nonneg(chrono_diff(*to, *from)),
        d <= 30_000_000_000_000_000_000_000_000_000int,
{
    let d = to.nanos_since(from);
    if d >= 0 { d as u128 } else { 0 }
}

/// Active time of a session at instant `now`, from its events in order. `None` where the total
/// exceeds the largest span.
pub fn active_time(events: &Vec<(String, UtcTime)>, now: UtcTime) -> (r: Option<TimeSpan>)
    ensures
        r is Some <==> active_nanos(events_view(events@), now) <= TimeSpan::max_nanos(),
        r matches Some(s) ==> s.total_nanos() == active_nanos(events_view(events@), now) && s.nanos < NANOS_PER_SEC,
{
    let ghost ev = events_view(events@);
    let mut total: u128 = 0;
    let mut open: Option<UtcTime> = None;
    let mut i: usize = 0;
    while i < events.len()
        invariant
            0 <= i <= events.len(),
            ev == events_view(events@),
            ev.len() == events@.len(),
            (total as int, open) == active_fold(ev.take(i as int)),
            total <= TimeSpan::max_nanos(),
        decreases events.len() - i,
    {
        let ghost prev = ev.take(i as int);
        assert(ev.take(i as int + 1).drop_last() =~= prev);
        assert(ev.take(i as int + 1).last() == ev[i as int]);
        assert(ev[i as int] == (events@[i as int].0@, events@[i as int].1));
        let ty = events[i].0.as_str();
        let at = events[i].1;
        if str_eq(ty, "START") || str_eq(ty, "RESUME") {
            open = Some(at);
        } else if str_eq(ty, "PAUSE") || str_eq(ty, "AUTO_PAUSE") || str_eq(ty, "STOP") {
            match open {
                Some(s) => {
                    let d = forward_nanos(&s, &at);
                    if total + d > 18_446_744_073_709_551_615u128 * 1_000_000_000 + 999_999_999 {
                        proof {
                            lemma_fold_total_grows(ev, i as int + 1);
                            lemma_fold_total_grows(ev, 0);
                            assert(ev.take(ev.len() as int) =~= ev);
                        }
                        return None;
                    }
                    total = total + d;
                },
                None => {},
            }
            open = None;
        }
        i = i + 1;
    }
    assert(ev.take(ev.len() as int) =~= ev);
    proof { lemma_fold_total_grows(ev, 0); }
    let extra: u128 = match open {
        Some(s) => if now.secs > s.secs || (now.secs == s.secs && now.nanos > s.nanos) {
            forward_nanos(&s, &now)
        } else {
            0
        },
        None => 0,
    };
    if total + extra > 18_446_744_073_709_551_615u128 * 1_000_000_000 + 999_999_999 {
        return None;
    }
    Some(TimeSpan::from_nanos(total + extra))
}

/// Reads the stored event rows `(event type, RFC 3339 time)` of a session, in order, into events.
/// Fails with `BadTimestamp` and the first offending text where a time is not an instant.
pub fn parse_event_rows(rows: &Vec<(String, String)>) -> (r: Result<Vec<(String, UtcTime)>, DbError>)
    ensures
        parsed_events(rows@) matches Some(ev) ==> (r matches Ok(v) && events_view(v@) == ev),
        parsed_events(rows@) is None ==> (r matches Err(DbError::BadTimestamp(t)) && first_bad_time(rows@, t@)),
{
    let mut out: Vec<(String, UtcTime)> = Vec::new();
    let mut i: usize = 0;
    assert(rows@.take(0) =~= Seq::<(String, String)>::empty());
    assert(events_view(out@) =~= Seq::<(Seq<char>, UtcTime)>::empty());
    while i < rows.len()
        invariant
            0 <= i <= rows.len(),
            parsed_events(rows@.take(i as int)) == Some(events_view(out@)),
        decreases rows.len() - i,
    {
        assert(rows@.take(i as int + 1).drop_last() =~= rows@.take(i as int));
        assert(rows@.take(i as int + 1).last() == rows@[i as int]);
        match parse_rfc3339(rows[i].1.as_str()) {
            Some(t) => {
                let ghost before = out@;
                out.push((rows[i].0.clone(), t));
                assert(events_view(out@) =~= events_view(before).push((rows@[i as int].0@, t)));
            },
            None => {
                proof { lemma_parsed_events_none_extends(rows@, i as int + 1); }
                let t = rows[i].1.clone();
                assert(rows@[i as int].1@ == t@ && parsed_events(rows@.take(i as int)) is Some);
                return Err(DbError::BadTimestamp(t));
            },
        }
        i = i + 1;
    }
    assert(rows@.take(rows@.len() as int) =~= rows@);
    Ok(out)
}

/// `t` is the first stored time, in row order, that is not an instant.
pub open spec fn first_bad_time(rows: Seq<(String, String)>, t: Seq<char>) -> bool {
    exists|i: int|
        0 <= i < rows.len() && #[trigger] rows[i].1@ == t && parsed_instant(t) is None
            && parsed_events(rows.take(i)) is Some
}

proof fn lemma_parsed_events_none_extends(rows: Seq<(String, String)>, k: int)
    requires
        0 <= k <= rows.len(),
        parsed_events(rows.take(k)) is None,
    ensures
        parsed_events(rows) is None,
    decreases rows.len() - k,
{
    if k < rows.len() {
        assert(rows.take(k + 1).drop_last() =~= rows.take(k));
        lemma_parsed_events_none_extends(rows, k + 1);
    } else {
        assert(rows.take(k) =~= rows);
    }
}

/// `r` is the active time of a session at instant `now` from its stored event rows: where all
/// its times are instants, the active time (`active_nanos`), or `Overflow` beyond the largest
/// span; else `BadTimestamp` with the first time that is not an instant.
pub open spec fn elapsed_result(rows: Seq<(String, String)>, now: UtcTime, r: Result<TimeSpan, DbError>) -> bool {
    &&& parsed_events(rows) matches Some(ev) ==> {
        &&& r is Ok <==> active_nanos(ev, now) <= TimeSpan::max_nanos()
        &&& r matches Ok(s) ==> s.total_nanos() == active_nanos(ev, now) && s.nanos < NANOS_PER_SEC
        &&& r is Err ==> r == Err::<TimeSpan, DbError>(DbError::Overflow)
    }
    &&& parsed_events(rows) is None ==> (r matches Err(DbError::BadTimestamp(t)) && first_bad_time(rows, t@))
}

/// The active time of a session at instant `now`, from its stored event rows in order.
/// `BadTimestamp` where a stored time is not an instant; `Overflow` where the total exceeds the
/// largest span.
pub fn session_elapsed(rows: &Vec<(String, String)>, now: UtcTime) -> (r: Result<TimeSpan, DbError>)
    ensures
        elapsed_result(rows@, now, r),
{
    let events = parse_event_rows(rows)?;
    match active_time(&events, now) {
        Some(s) => Ok(s),
        None => Err(DbError::Overflow),
    }
}

} // verus!
