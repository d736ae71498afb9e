//! The timer's state machine: Idle, Running, Paused, Stopped, and the four operations Start,
//! Pause, Resume and Stop, each of which writes the session store; and the recovery of the
//! timer from what the store holds.

use vstd::prelude::*;
use crate::clock::{reading_instant, UtcTime};
use crate::database::{last_event_result, Database, DbError, DbSession, DbWrite};
use crate::sql::{last_event_sql, last_session_sql, ReadAnswer, SqlRead};
use crate::text::str_eq;

verus! {

/// The states of the timer.
#[derive(Debug, Clone, Copy, PartialEq, Eq, Structural)]
pub enum TimerState {
    Idle,
    Running,
    Paused,
    Stopped,
}

/// The operations on the timer; a pause is automatic (after an ignored idle warning) or not.
#[derive(Debug, Clone, Copy, PartialEq, Eq, Structural)]
pub enum TimerOp {
    Start,
    Pause { auto: bool },
    Resume,
    Stop,
}

/// Why an operation on the timer failed.
#[derive(Debug, Clone, PartialEq, Eq)]
pub enum TimerError {
    /// The operation is not allowed from the timer's state.
    InvalidTransition { op: TimerOp, from: TimerState },
    /// The session store failed.
    Database(DbError),
    /// The system clock could not be read as an instant.
    Clock,
}

/// What a timer is: its state and the session it is timing.
pub struct TimerModel {
    pub state: TimerState,
    pub session: Option<i64>,
}

impl TimerModel {
    /// A session is being timed exactly while the timer runs or is paused.
    pub open spec fn consistent(self) -> bool {
        (self.state is Running || self.state is Paused) <==> self.session is Some
    }
}

/// The timer: its state and the id of the session it is timing.
pub struct Timer {
    state: TimerState,
    current_session_id: Option<i64>,
}

impl View for Timer {
    type V = TimerModel;

    closed spec fn view(&self) -> TimerModel {
        TimerModel { state: self.state, session: self.current_session_id }
    }
}

/// Whether `op` is allowed from `from`: Start from Idle or Stopped, Pause from Running, Resume
/// from Paused, Stop from Running or Paused.
pub open spec fn allowed(op: TimerOp, from: TimerState) -> bool {
    match op {
        TimerOp::Start => from is Idle || from is Stopped,
        TimerOp::Pause { .. } => from is Running,
        TimerOp::Resume => from is Paused,
        TimerOp::Stop => from is Running || from is Paused,
    }
}

/// The state an allowed operation leads to.
pub open spec fn target(op: TimerOp) -> TimerState {
    match op {
        TimerOp::Start => TimerState::Running,
        TimerOp::Pause { .. } => TimerState::Paused,
        TimerOp::Resume => TimerState::Running,
        TimerOp::Stop => TimerState::Stopped,
    }
}

/// The event type that an operation records.
pub open spec fn op_event(op: TimerOp) -> Seq<char> {
    match op {
        TimerOp::Start => "START"@,
        TimerOp::Pause { auto } => if auto { "AUTO_PAUSE"@ } else { "PAUSE"@ },
        TimerOp::Resume => "RESUME"@,
        TimerOp::Stop => "STOP"@,
    }
}

/// Whether an event type marks a paused session (a pause or an automatic pause).
pub open spec fn is_pause_event(t: Seq<char>) -> bool {
    t == "PAUSE"@ || t == "AUTO_PAUSE"@
}

/// One successful operation: allowed from `before`, made the `writes` to the store, and led to
/// `after`. Start creates a session and records START at its start time; Pause, Resume and
/// Stop record their event for the session being timed, and Stop then ends that session at the
/// time of its event.
pub open spec fn step(before: TimerModel, op: TimerOp, writes: Seq<DbWrite>, after: TimerModel) -> bool {
    &&& allowed(op, before.state)
    &&& match op {
        TimerOp::Start => {
            &&& writes.len() == 2
            &&& writes[0] matches DbWrite::SessionCreated { id, started_at }
            &&& writes[1] == DbWrite::EventLogged { session_id: id, event_type: "START"@, created_at: started_at }
            &&& after == TimerModel { state: TimerState::Running, session: Some(id) }
        },
        TimerOp::Stop => {
            &&& before.session matches Some(id)
            &&& writes.len() == 2
            &&& writes[0] matches DbWrite::EventLogged { session_id, event_type, created_at }
            &&& session_id == id && event_type == "STOP"@
            &&& writes[1] == DbWrite::SessionEnded { id, ended_at: created_at }
            &&& after == TimerModel { state: TimerState::Stopped, session: None }
        },
        _ => {
            &&& before.session matches Some(id)
            &&& writes.len() == 1
            &&& writes[0] matches DbWrite::EventLogged { session_id, event_type, .. }
            &&& session_id == id && event_type == op_event(op)
            &&& after == TimerModel { state: target(op), session: before.session }
        },
    }
}

/// The writes that an allowed operation may have made before it failed: none; or, for Start,
/// the session it created; or, for Stop, its STOP event (the session is then not ended).
pub open spec fn partial_writes(before: TimerModel, op: TimerOp, writes: Seq<DbWrite>) -> bool {
    ||| writes.len() == 0
    ||| writes.len() == 1 && match op {
        TimerOp::Start => writes[0] is SessionCreated,
        TimerOp::Stop => before.session matches Some(id) && (writes[0] matches DbWrite::EventLogged {
            session_id,
            event_type,
            ..
        } && session_id == id && event_type == "STOP"@),
        _ => false,
    }
}

/// The time a write records: a session's start, a session's end, or an event's time.
pub open spec fn write_time(w: DbWrite) -> UtcTime {
    match w {
        DbWrite::SessionCreated { started_at, .. } => started_at,
        DbWrite::SessionEnded { ended_at, .. } => ended_at,
        DbWrite::EventLogged { created_at, .. } => created_at,
    }
}

/// A successful operation `op` took the clock readings `c0` to `c1` and made `writes`: it read
/// the clock once (Start once more, for the new session's creation time, see
/// `Database::create_session`), and every write it made records the instant that its first
/// reading names.
pub open spec fn at_clock_reading(
    op: TimerOp,
    c0: Seq<Option<(u64, u32)>>,
    c1: Seq<Option<(u64, u32)>>,
    writes: Seq<DbWrite>,
) -> bool {
    &&& c1.len() == c0.len() + if op is Start { 2int } else { 1int }
    &&& c1.take(c0.len() as int) == c0
    &&& reading_instant(c1[c0.len() as int]) matches Some(now)
        && forall|k: int| 0 <= k < writes.len() ==> write_time(#[trigger] writes[k]) == now
}

/// Every successful operation happens at the clock: where it took the clock readings `c0` to
/// `c1`, the instant its first reading names is the start of the session that Start opens and
/// the time of its START event; the time of the event that Pause, Resume or Stop records for the
/// session being timed; and the end of the session that Stop ends.
pub proof fn lemma_operation_happens_at_the_clock_reading(
    before: TimerModel,
    j0: Seq<DbWrite>,
    op: TimerOp,
    after: TimerModel,
    j1: Seq<DbWrite>,
    c0: Seq<Option<(u64, u32)>>,
    c1: Seq<Option<(u64, u32)>>,
)
    requires
        outcome(before, j0, op, Ok(()), after, j1),
        at_clock_reading(op, c0, c1, j1.skip(j0.len() as int)),
    ensures
        reading_instant(c1[c0.len() as int]) matches Some(now) && {
            let w = j1.skip(j0.len() as int);
            &&& op is Start ==> (w[0] matches DbWrite::SessionCreated { id, started_at } && started_at == now
                && w[1] == DbWrite::EventLogged { session_id: id, event_type: "START"@, created_at: now }
                && after.session == Some(id))
            &&& !(op is Start) ==> (before.session matches Some(id)
                && w[0] == DbWrite::EventLogged { session_id: id, event_type: op_event(op), created_at: now })
            &&& op is Stop ==> (before.session matches Some(id) && w[1] == DbWrite::SessionEnded { id, ended_at: now })
        },
{
    let w = j1.skip(j0.len() as int);
    let now = reading_instant(c1[c0.len() as int])->Some_0;
    assert(write_time(w[0]) == now);
    if w.len() > 1 {
        assert(write_time(w[1]) == now);
    }
}

/// `later` is `earlier` followed by more writes.
pub open spec fn extends(earlier: Seq<DbWrite>, later: Seq<DbWrite>) -> bool {
    later.len() >= earlier.len() && later.take(earlier.len() as int) == earlier
}

/// The outcome of operation `op` on a timer `before` with journal `j0`, giving result `r`,
/// timer `after` and journal `j1`. Where `op` is not allowed it fails with `InvalidTransition`
/// and changes nothing. Where it is allowed, on success it is a `step` whose writes are the
/// journal's new entries; on failure the store failed, the timer is unchanged, and the writes
/// made before the failure stay in the journal.
pub open spec fn outcome(
    before: TimerModel,
    j0: Seq<DbWrite>,
    op: TimerOp,
    r: Result<(), TimerError>,
    after: TimerModel,
    j1: Seq<DbWrite>,
) -> bool {
    &&& after.consistent()
    &&& if allowed(op, before.state) {
        match r {
            Ok(()) => extends(j0, j1) && step(before, op, j1.skip(j0.len() as int), after),
            Err(e) => (e is Database || e is Clock) && after == before && extends(j0, j1)
                && partial_writes(before, op, j1.skip(j0.len() as int)),
        }
    } else {
        &&& r == Err::<(), TimerError>(TimerError::InvalidTransition { op, from: before.state })
        &&& after == before
        &&& j1 == j0
    }
}

/// The timer that recovery finds from the newest stored session, given as its id and whether it
/// has not ended, and the type of that session's newest event: no session gives Idle; an ended
/// one gives Stopped; an open one gives Paused where its newest event is a pause or an
/// automatic pause, else Running, timing that session.
pub open spec fn recovered_model(last: Option<(i64, bool)>, last_event: Option<Seq<char>>) -> TimerModel {
    match last {
        None => TimerModel { state: TimerState::Idle, session: None },
        Some((id, open)) => if open {
            TimerModel {
                state: if last_event matches Some(e) && is_pause_event(e) { TimerState::Paused } else { TimerState::Running },
                session: Some(id),
            }
        } else {
            TimerModel { state: TimerState::Stopped, session: None }
        },
    }
}

/// `reads` are the queries that recovery made, with what SQLite answered, and `t` is the timer
/// recovered from them: first the newest session; with no rows, Idle; where the newest session
/// has ended, Stopped; where it has not, then the newest event of that session (its id is the
/// key), and the timer that `recovered_model` gives for it.
pub open spec fn recovered_from_reads(reads: Seq<SqlRead>, t: TimerModel) -> bool {
    &&& reads.len() >= 1
    &&& reads[0].sql == last_session_sql()
    &&& reads[0].key is None
    &&& reads[0].answer matches ReadAnswer::Sessions(rows) && if rows.len() == 0 {
        reads.len() == 1 && t == recovered_model(None, None)
    } else if rows[0].2 is Some {
        reads.len() == 1 && t == recovered_model(Some((rows[0].0, false)), None)
    } else {
        &&& reads.len() == 2
        &&& reads[1].sql == last_event_sql()
        &&& reads[1].key == Some(rows[0].0)
        &&& reads[1].answer matches ReadAnswer::Texts(ev) && t == recovered_model(
            Some((rows[0].0, true)),
            match last_event_result(ev) { Some(e) => Some(e@), None => None },
        )
    }
}

/// A stored session as recovery sees it: its id, whether it has not ended, and the type of its
/// newest event.
pub struct StoredSession {
    pub id: i64,
    pub open: bool,
    pub last_event: Option<Seq<char>>,
}

/// What the store holds after one write: a created session is added, open and without events;
/// an event becomes the newest of its session; an ended session is no longer open.
pub open spec fn apply_write(h: Seq<StoredSession>, w: DbWrite) -> Seq<StoredSession> {
    match w {
        DbWrite::SessionCreated { id, .. } => h.push(StoredSession { id, open: true, last_event: None }),
        DbWrite::SessionEnded { id, .. } => h.map_values(
            |s: StoredSession| if s.id == id { StoredSession { id: s.id, open: false, last_event: s.last_event } } else { s },
        ),
        DbWrite::EventLogged { session_id, event_type, .. } => h.map_values(
            |s: StoredSession| if s.id == session_id { StoredSession { id: s.id, open: s.open, last_event: Some(event_type) } } else { s },
        ),
    }
}

/// What the store holds after writes in order.
pub open spec fn apply_writes(h: Seq<StoredSession>, ws: Seq<DbWrite>) -> Seq<StoredSession>
    decreases ws.len(),
{
    if ws.len() == 0 {
        h
    } else {
        apply_write(apply_writes(h, ws.drop_last()), ws.last())
    }
}

/// Sessions stored in the order of their ids, each id larger than the one before, so that the
/// last is the newest.
pub open spec fn ids_increasing(h: Seq<StoredSession>) -> bool {
    forall|i: int, j: int| 0 <= i < j < h.len() ==> h[i].id < h[j].id
}

/// Every session the writes create has an id larger than every stored one (as SQLite's
/// AUTOINCREMENT gives).
pub open spec fn fresh_ids(h: Seq<StoredSession>, ws: Seq<DbWrite>) -> bool {
    forall|k: int, i: int|
        #![trigger ws[k], h[i]]
        0 <= k < ws.len() && 0 <= i < h.len() ==> (ws[k] matches DbWrite::SessionCreated { id, .. } ==> h[i].id < id)
}

/// The timer that recovery finds in a store holding `h`.
pub open spec fn history_recovery(h: Seq<StoredSession>) -> TimerModel {
    if h.len() == 0 {
        recovered_model(None, None)
    } else {
        recovered_model(Some((h.last().id, h.last().open)), h.last().last_event)
    }
}

proof fn lemma_update_last(h: Seq<StoredSession>, w: DbWrite)
    requires
        ids_increasing(h),
        h.len() > 0,
        !(w is SessionCreated),
        w matches DbWrite::SessionEnded { id, .. } ==> id == h.last().id,
        w matches DbWrite::EventLogged { session_id, .. } ==> session_id == h.last().id,
    ensures
        apply_write(h, w).len() == h.len(),
        ids_increasing(apply_write(h, w)),
        apply_write(h, w).last() == (match w {
            DbWrite::SessionEnded { .. } => StoredSession { id: h.last().id, open: false, last_event: h.last().last_event },
            DbWrite::EventLogged { event_type, .. } => StoredSession { id: h.last().id, open: h.last().open, last_event: Some(event_type) },
            _ => h.last(),
        }),
{
    let h2 = apply_write(h, w);
    assert forall|i: int| 0 <= i < h.len() implies #[trigger] h2[i].id == h[i].id by {}
}

/// Recovery follows the timer: where recovery from the stored sessions `h` finds the timer
/// `before`, and an operation succeeds from `before` to `after` with the writes `writes`
/// (creating sessions with fresh ids), recovery from the sessions stored after those writes
/// finds `after`, and their ids still increase.
pub proof fn lemma_recovery_follows_timer(
    h: Seq<StoredSession>,
    before: TimerModel,
    op: TimerOp,
    writes: Seq<DbWrite>,
    after: TimerModel,
)
    requires
        ids_increasing(h),
        history_recovery(h) == before,
        step(before, op, writes, after),
        fresh_ids(h, writes),
    ensures
        history_recovery(apply_writes(h, writes)) == after,
        ids_increasing(apply_writes(h, writes)),
{
    reveal_with_fuel(apply_writes, 3);
    reveal_strlit("START");
    reveal_strlit("RESUME");
    reveal_strlit("PAUSE");
    reveal_strlit("AUTO_PAUSE");
    match op {
        TimerOp::Start => {
            let w0 = writes[0];
            let w1 = writes[1];
            assert(writes.drop_last().drop_last() =~= Seq::<DbWrite>::empty());
            assert(writes.drop_last() =~= seq![w0]);
            let id = w0->SessionCreated_id;
            assert forall|i: int| 0 <= i < h.len() implies #[trigger] h[i].id < id by {
                assert(writes[0] matches DbWrite::SessionCreated { .. });
            }
            let h1 = apply_write(h, w0);
            assert(h1 == h.push(StoredSession { id, open: true, last_event: None }));
            assert(ids_increasing(h1));
            lemma_update_last(h1, w1);
            assert(apply_writes(h, writes.drop_last()) == h1) by {
                assert(writes.drop_last().drop_last() =~= Seq::<DbWrite>::empty());
            }
            assert(writes.last() == w1);
            let h2 = apply_write(h1, w1);
            assert(apply_writes(h, writes) == h2);
            assert(h2.last() == StoredSession { id, open: true, last_event: Some("START"@) });
            assert("START"@[0] != "PAUSE"@[0]);
            assert("START"@.len() != "AUTO_PAUSE"@.len());
        },
        TimerOp::Stop => {
            let w0 = writes[0];
            let w1 = writes[1];
            assert(writes.drop_last().drop_last() =~= Seq::<DbWrite>::empty());
            assert(writes.drop_last() =~= seq![w0]);
            assert(h.len() > 0);
            lemma_update_last(h, w0);
            let h1 = apply_write(h, w0);
            lemma_update_last(h1, w1);
            assert(apply_writes(h, writes.drop_last()) == h1) by {
                assert(writes.drop_last().drop_last() =~= Seq::<DbWrite>::empty());
            }
            assert(history_recovery(apply_writes(h, writes)) == after);
        },
        _ => {
            assert(writes.drop_last() =~= Seq::<DbWrite>::empty());
            assert(h.len() > 0);
            lemma_update_last(h, writes[0]);
            assert(apply_writes(h, writes) == apply_write(h, writes[0]));
            assert("RESUME"@.len() != "PAUSE"@.len());
            assert(history_recovery(apply_writes(h, writes)) == after);
        },
    }
}

impl TimerOp {
    /// The event type this operation records.
    pub fn event_type(&self) -> (t: &'static str)
        ensures
            t@ == op_event(*self),
    {
        match self {
            TimerOp::Start => "START",
            TimerOp::Pause { auto } => if *auto { "AUTO_PAUSE" } else { "PAUSE" },
            TimerOp::Resume => "RESUME",
            TimerOp::Stop => "STOP",
        }
    }
}

impl Timer {
    #[verifier::type_invariant]
    spec fn inv(self) -> bool {
        self@.consistent()
    }

    /// The current state of the timer.
    pub fn state(&self) -> (s: TimerState)
        ensures
            s == self@.state,
    {
        self.state
    }

    /// The id of the session being timed, if any.
    pub fn current_session_id(&self) -> (id: Option<i64>)
        ensures
            id == self@.session,
    {
        self.current_session_id
    }

    /// The timer that recovery finds from the newest stored session and the type of its newest
    /// event (consulted only while that session has not ended).
    pub fn recovered(last_session: Option<&DbSession>, last_event: Option<&String>) -> (t: Timer)
        ensures
            t@ == recovered_model(
                match last_session { Some(s) => Some((s.id, s.ended_at is None)), None => None },
                match last_event { Some(e) => Some(e@), None => None },
            ),
            t@.consistent(),
    {
        match last_session {
            None => Timer { state: TimerState::Idle, current_session_id: None },
            Some(s) => if s.ended_at.is_none() {
                let paused = match last_event {
                    Some(e) => str_eq(e.as_str(), "PAUSE") || str_eq(e.as_str(), "AUTO_PAUSE"),
                    None => false,
                };
                Timer {
                    state: if paused { TimerState::Paused } else { TimerState::Running },
                    current_session_id: Some(s.id),
                }
            } else {
                Timer { state: TimerState::Stopped, current_session_id: None }
            },
        }
    }

    /// Recovers the timer from the store: from its newest session and, while that session has not
    /// ended, the type of its newest event (see `recovered` and `recovered_from_reads`, over the
    /// queries logged in `reads`). What the store holds is the database's; a failed read gives
    /// `Read`, a stored time that chrono cannot read `BadTimestamp`.
    pub fn new(db: &mut Database) -> (r: Result<Timer, TimerError>)
        ensures
            final(db).journal() == old(db).journal(),
            final(db).statements() == old(db).statements(),
            final(db).path() == old(db).path(),
            r matches Ok(t) ==> t@.consistent()
                && final(db).reads().take(old(db).reads().len() as int) == old(db).reads()
                && recovered_from_reads(final(db).reads().skip(old(db).reads().len() as int), t@),
            r matches Err(e) ==> (e matches TimerError::Database(d) && (d is Read || d is BadTimestamp)),
    {
        let ghost r0 = db.reads();
        let last = match db.get_last_session() {
            Ok(last) => last,
            Err(e) => { return Err(TimerError::Database(e)); },
        };
        let ghost r1 = db.reads();
        assert(r1.take(r0.len() as int) =~= r0);
        assert(r1.skip(r0.len() as int) =~= seq![r1.last()]);
        match last {
            None => Ok(Timer::recovered(None, None)),
            Some(s) => if s.ended_at.is_none() {
                match db.get_last_event_type(s.id) {
                    Ok(ev) => {
                        let ghost r2 = db.reads();
                        assert(r2.take(r0.len() as int) =~= r0);
                        assert(r2.skip(r0.len() as int) =~= seq![r1.last(), r2.last()]);
                        match ev {
                            Some(e) => Ok(Timer::recovered(Some(&s), Some(&e))),
                            None => Ok(Timer::recovered(Some(&s), None)),
                        }
                    },
                    Err(e) => Err(TimerError::Database(e)),
                }
            } else {
                Ok(Timer::recovered(Some(&s), None))
            },
        }
    }

    fn apply(&mut self, db: &mut Database, op: TimerOp) -> (r: Result<(), TimerError>)
        ensures
            outcome(old(self)@, old(db).journal(), op, r, final(self)@, final(db).journal()),
            r is Ok ==> at_clock_reading(
                op,
                old(db).clock_readings(),
                final(db).clock_readings(),
                final(db).journal().skip(old(db).journal().len() as int),
            ),
    {
        proof { use_type_invariant(&*self); }
        let ghost j0 = db.journal();
        let ghost c0 = db.clock_readings();
        let from = self.state;
        match op {
            TimerOp::Start => {
                if !(from == TimerState::Idle || from == TimerState::Stopped) {
                    return Err(TimerError::InvalidTransition { op, from });
                }
                let now = match db.read_clock() {
                    Some(t) => t,
                    None => {
                        assert(db.journal().take(j0.len() as int) =~= j0);
                        assert(db.journal().skip(j0.len() as int) =~= Seq::<DbWrite>::empty());
                        return Err(TimerError::Clock);
                    },
                };
                let ghost c1 = db.clock_readings();
                let id = match db.create_session(now) {
                    Ok(id) => id,
                    Err(e) => {
                        assert(db.journal().take(j0.len() as int) =~= j0);
                        assert(db.journal().skip(j0.len() as int) =~= Seq::<DbWrite>::empty());
                        return Err(TimerError::Database(e));
                    },
                };
                if let Err(e) = db.log_event(id, op.event_type(), now) {
                    assert(db.journal().take(j0.len() as int) =~= j0);
                    assert(db.journal().skip(j0.len() as int) =~= seq![DbWrite::SessionCreated { id, started_at: now }]);
                    return Err(TimerError::Database(e));
                }
                *self = Timer { state: TimerState::Running, current_session_id: Some(id) };
                assert(db.journal().take(j0.len() as int) =~= j0);
                assert(db.journal().skip(j0.len() as int) =~= seq![
                    DbWrite::SessionCreated { id, started_at: now },
                    DbWrite::EventLogged { session_id: id, event_type: "START"@, created_at: now },
                ]);
                assert(db.clock_readings().take(c0.len() as int) =~= c0);
                assert(db.clock_readings()[c0.len() as int] == c1.last());
                Ok(())
            },
            _ => {
                let ok_from = match op {
                    TimerOp::Pause { .. } => from == TimerState::Running,
                    TimerOp::Resume => from == TimerState::Paused,
                    _ => from == TimerState::Running || from == TimerState::Paused,
                };
                if !ok_from {
                    return Err(TimerError::InvalidTransition { op, from });
                }
                // A running or paused timer is timing a session (the type invariant).
                let id = self.current_session_id.unwrap();
                let now = match db.read_clock() {
                    Some(t) => t,
                    None => {
                        assert(db.journal().take(j0.len() as int) =~= j0);
                        assert(db.journal().skip(j0.len() as int) =~= Seq::<DbWrite>::empty());
                        return Err(TimerError::Clock);
                    },
                };
                assert(db.clock_readings().take(c0.len() as int) =~= c0);
                if let Err(e) = db.log_event(id, op.event_type(), now) {
                    assert(db.journal().take(j0.len() as int) =~= j0);
                    assert(db.journal().skip(j0.len() as int) =~= Seq::<DbWrite>::empty());
                    return Err(TimerError::Database(e));
                }
                match op {
                    TimerOp::Stop => {
                        if let Err(e) = db.end_session(id, now) {
                            assert(db.journal().take(j0.len() as int) =~= j0);
                            assert(db.journal().skip(j0.len() as int) =~= seq![
                                DbWrite::EventLogged { session_id: id, event_type: "STOP"@, created_at: now },
                            ]);
                            return Err(TimerError::Database(e));
                        }
                        *self = Timer { state: TimerState::Stopped, current_session_id: None };
                        assert(db.journal().skip(j0.len() as int) =~= seq![
                            DbWrite::EventLogged { session_id: id, event_type: "STOP"@, created_at: now },
                            DbWrite::SessionEnded { id, ended_at: now },
                        ]);
                    },
                    TimerOp::Resume => {
                        *self = Timer { state: TimerState::Running, current_session_id: Some(id) };
                        assert(db.journal().skip(j0.len() as int) =~= seq![
                            DbWrite::EventLogged { session_id: id, event_type: op_event(op), created_at: now },
                        ]);
                    },
                    _ => {
                        *self = Timer { state: TimerState::Paused, current_session_id: Some(id) };
                        assert(db.journal().skip(j0.len() as int) =~= seq![
                            DbWrite::EventLogged { session_id: id, event_type: op_event(op), created_at: now },
                        ]);
                    },
                }
                assert(db.journal().take(j0.len() as int) =~= j0);
                Ok(())
            },
        }
    }

    /// Starts a new session: allowed from Idle or Stopped (see `outcome` and `step`).
    pub fn start(&mut self, db: &mut Database) -> (r: Result<(), TimerError>)
        ensures
            outcome(old(self)@, old(db).journal(), TimerOp::Start, r, final(self)@, final(db).journal()),
            r is Ok ==> at_clock_reading(
                TimerOp::Start,
                old(db).clock_readings(),
                final(db).clock_readings(),
                final(db).journal().skip(old(db).journal().len() as int),
            ),
    {
        self.apply(db, TimerOp::Start)
    }

    /// Pauses the running session, automatically or not: allowed from Running (see `outcome`
    /// and `step`).
    pub fn pause(&mut self, db: &mut Database, is_auto: bool) -> (r: Result<(), TimerError>)
        ensures
            outcome(old(self)@, old(db).journal(), TimerOp::Pause { auto: is_auto }, r, final(self)@, final(db).journal()),
            r is Ok ==> at_clock_reading(
                TimerOp::Pause { auto: is_auto },
                old(db).clock_readings(),
                final(db).clock_readings(),
                final(db).journal().skip(old(db).journal().len() as int),
            ),
    {
        self.apply(db, TimerOp::Pause { auto: is_auto })
    }

    /// Resumes the paused session: allowed from Paused (see `outcome` and `step`).
    pub fn resume(&mut self, db: &mut Database) -> (r: Result<(), TimerError>)
        ensures
            outcome(old(self)@, old(db).journal(), TimerOp::Resume, r, final(self)@, final(db).journal()),
            r is Ok ==> at_clock_reading(
                TimerOp::Resume,
                old(db).clock_readings(),
                final(db).clock_readings(),
                final(db).journal().skip(old(db).journal().len() as int),
            ),
    {
        self.apply(db, TimerOp::Resume)
    }

    /// Stops the session: allowed from Running or Paused (see `outcome` and `step`).
    pub fn stop(&mut self, db: &mut Database) -> (r: Result<(), TimerError>)
        ensures
            outcome(old(self)@, old(db).journal(), TimerOp::Stop, r, final(self)@, final(db).journal()),
            r is Ok ==> at_clock_reading(
                TimerOp::Stop,
                old(db).clock_readings(),
                final(db).clock_readings(),
                final(db).journal().skip(old(db).journal().len() as int),
            ),
    {
        self.apply(db, TimerOp::Stop)
    }
}

} // verus!
