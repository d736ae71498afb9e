//! Instants of UTC time as plain numbers, and their RFC 3339 text form.
//!
//! The stored text form and the reading of the clock are chrono's; the arithmetic on
//! instants (differences, sums of spans) is the library's own and is verified.

use vstd::prelude::*;

verus! {

/// The readings of the system clock taken, in order, as seconds and nanoseconds since the Unix
/// epoch (`None` for one before it). Only the call that takes a reading adds to it.
pub struct ClockLog {
    readings: Ghost<Seq<Option<(u64, u32)>>>,
}

impl ClockLog {
    /// The readings, in order.
    pub closed spec fn readings(&self) -> Seq<Option<(u64, u32)>> {
        self.readings@
    }

    /// A log with no readings.
    pub fn new() -> (l: ClockLog)
        ensures
            l.readings() == Seq::<Option<(u64, u32)>>::empty(),
    {
        ClockLog { readings: Ghost(Seq::empty()) }
    }
}

/// The instant that a clock reading names, where chrono can write it: none for a reading before
/// the Unix epoch or beyond +262142-12-31T23:59:59.
pub open spec fn reading_instant(reading: Option<(u64, u32)>) -> Option<UtcTime> {
    match reading {
        Some((secs, nanos)) => if secs <= 8_210_266_876_799 {
            Some(UtcTime { secs: secs as i64, nanos })
        } else {
            None
        },
        None => None,
    }
}

/// `after` is `before` with one more reading taken.
pub open spec fn one_more_reading(before: Seq<Option<(u64, u32)>>, after: Seq<Option<(u64, u32)>>) -> bool {
    after.len() == before.len() + 1 && after.drop_last() == before
}

/// Number of nanoseconds in one second.
pub const NANOS_PER_SEC: u32 = 1_000_000_000;

/// An instant of UTC time: whole seconds since the Unix epoch and the nanoseconds
/// past that second.
#[derive(Clone, Copy, Debug, PartialEq, Eq, Structural)]
pub struct UtcTime {
    pub secs: i64,
    pub nanos: u32,
}

/// A non-negative length of time: whole seconds and the nanoseconds past them.
#[derive(Clone, Copy, Debug, PartialEq, Eq, Structural)]
pub struct TimeSpan {
    pub secs: u64,
    pub nanos: u32,
}

impl UtcTime {
    /// The instant names no leap second: its nanoseconds stay below one second. (chrono writes
    /// the leap second ending a minute as nanoseconds from one second up to two.)
    pub open spec fn wf(self) -> bool {
        self.nanos < NANOS_PER_SEC
    }

    /// The instant as nanoseconds since the Unix epoch.
    pub open spec fn instant(self) -> int {
        self.secs * 1_000_000_000 + self.nanos
    }

    /// The current time as the system clock reports it, through `from_unix_reading`; `None`
    /// where the clock reads before the Unix epoch or beyond the last instant chrono can write
    /// (where chrono's `Utc::now` panics).
    pub fn now() -> (r: Option<UtcTime>)
        ensures
            r matches Some(t) ==> t.wf() && chrono_representable(t.secs, t.nanos) && t.secs >= 0,
    {
        let mut log = ClockLog::new();
        UtcTime::read_clock(&mut log)
    }

    /// Reads the system clock, records the reading in `log`, and gives the instant it names
    /// (`reading_instant`): `None` where the clock reads before the Unix epoch or beyond the
    /// last instant chrono can write.
    pub fn read_clock(log: &mut ClockLog) -> (r: Option<UtcTime>)
        ensures
            final(log).readings().len() == old(log).readings().len() + 1,
            final(log).readings().drop_last() == old(log).readings(),
            r == reading_instant(final(log).readings().last()),
            r matches Some(t) ==> t.wf() && chrono_representable(t.secs, t.nanos) && t.secs >= 0,
    {
        let reading = system_now();
        let r = match since_unix_epoch(&reading, log) {
            Some((secs, nanos)) => UtcTime::from_unix_reading(secs, nanos),
            None => None,
        };
        assert(log.readings().drop_last() =~= old(log).readings());
        r
    }

    /// The instant `secs` seconds and `nanos` nanoseconds after the Unix epoch, where chrono can
    /// write it: `None` beyond +262142-12-31T23:59:59.
    pub fn from_unix_reading(secs: u64, nanos: u32) -> (r: Option<UtcTime>)
        requires
            nanos < NANOS_PER_SEC,
        ensures
            r == (if secs <= 8_210_266_876_799 {
                Some(UtcTime { secs: secs as i64, nanos })
            } else {
                None::<UtcTime>
            }),
            r matches Some(t) ==> t.wf() && chrono_representable(t.secs, t.nanos) && t.secs >= 0,
    {
        if secs <= 8_210_266_876_799 {
            Some(UtcTime { secs: secs as i64, nanos })
        } else {
            None
        }
    }

    /// The instant as chrono writes it in RFC 3339; `None` exactly where chrono cannot represent
    /// it.
    pub fn to_rfc3339(&self) -> (r: Option<String>)
        ensures
            r is Some <==> chrono_representable(self.secs, self.nanos),
            r matches Some(s) ==> s@ == rfc3339_of(self.secs, self.nanos),
    {
        format_rfc3339(self)
    }

    /// Nanoseconds since the Unix epoch, exactly.
    pub fn as_nanos(&self) -> (n: i128)
        ensures
            n == self.instant(),
    {
        assert(-9_223_372_036_854_775_808 <= self.secs <= 9_223_372_036_854_775_807);
        assert(self.secs * 1_000_000_000 <= 9_223_372_036_854_775_807 * 1_000_000_000) by (nonlinear_arith)
            requires self.secs <= 9_223_372_036_854_775_807;
        assert(self.secs * 1_000_000_000 >= -9_223_372_036_854_775_808 * 1_000_000_000) by (nonlinear_arith)
            requires self.secs >= -9_223_372_036_854_775_808;
        (self.secs as i128) * 1_000_000_000 + (self.nanos as i128)
    }
}

/// The second of its day that the instant `secs` falls in (days begin at midnight UTC).
pub open spec fn time_of_day(secs: i64) -> int {
    (secs as int) % 86_400
}

/// The nanoseconds from `from` to `to` as chrono's `DateTime - DateTime` counts them: the whole
/// seconds between the two and the difference of their nanoseconds, with one second more where
/// `from` lies in a leap second and `to` later in its day, and one less where `to` lies in a leap
/// second and earlier in its day than `from`. For instants that name no leap second this is
/// `to.instant() - from.instant()`.
pub open spec fn chrono_diff(to: UtcTime, from: UtcTime) -> int {
    let leap = if time_of_day(to.secs) > time_of_day(from.secs) && from.nanos >= NANOS_PER_SEC {
        1int
    } else if time_of_day(to.secs) < time_of_day(from.secs) && to.nanos >= NANOS_PER_SEC {
        -1int
    } else {
        0int
    };
    (to.secs - from.secs + leap) * 1_000_000_000 + to.nanos - from.nanos
}

/// `a` comes after `b` in chrono's order of instants: a later second, or the same second and
/// more nanoseconds.
pub open spec fn is_after(a: UtcTime, b: UtcTime) -> bool {
    a.secs > b.secs || (a.secs == b.secs && a.nanos > b.nanos)
}

/// Between instants that name no leap second, chrono's difference is the difference of the
/// instants, and its order is theirs.
pub proof fn lemma_diff_without_leap_seconds(to: UtcTime, from: UtcTime)
    requires
        to.wf(),
        from.wf(),
    ensures
        chrono_diff(to, from) == to.instant() - from.instant(),
        is_after(to, from) <==> to.instant() > from.instant(),
{
    assert(is_after(to, from) <==> to.instant() > from.instant()) by (nonlinear_arith)
        requires
            to.nanos < 1_000_000_000,
            from.nanos < 1_000_000_000,
            to.instant() == to.secs * 1_000_000_000 + to.nanos,
            from.instant() == from.secs * 1_000_000_000 + from.nanos,
            is_after(to, from) <==> (to.secs > from.secs || (to.secs == from.secs && to.nanos > from.nanos)),
    ;
}

impl UtcTime {
    /// The nanoseconds from `from` to this instant, as chrono's `DateTime - DateTime` counts
    /// them (`chrono_diff`).
    pub fn nanos_since(&self, from: &UtcTime) -> (d: i128)
        ensures
            d == chrono_diff(*self, *from),
            -30_000_000_000_000_000_000_000_000_000 <= d <= 30_000_000_000_000_000_000_000_000_000,
    {
        let tod_to: i64 = match self.secs.checked_rem_euclid(86_400) {
            Some(t) => t,
            None => 0,
        };
        let tod_from: i64 = match from.secs.checked_rem_euclid(86_400) {
            Some(t) => t,
            None => 0,
        };
        let leap: i128 = if tod_to > tod_from && from.nanos >= NANOS_PER_SEC {
            1
        } else if tod_to < tod_from && self.nanos >= NANOS_PER_SEC {
            -1
        } else {
            0
        };
        let whole: i128 = self.secs as i128 - from.secs as i128 + leap;
        assert(-20_000_000_000_000_000_000 <= whole <= 20_000_000_000_000_000_000);
        assert(-20_000_000_000_000_000_000_000_000_000 <= whole * 1_000_000_000 <= 20_000_000_000_000_000_000_000_000_000)
            by (nonlinear_arith)
            requires -20_000_000_000_000_000_000 <= whole <= 20_000_000_000_000_000_000;
        whole * 1_000_000_000 + self.nanos as i128 - from.nanos as i128
    }
}

impl TimeSpan {
    /// The span in nanoseconds.
    pub open spec fn total_nanos(self) -> int {
        self.secs * 1_000_000_000 + self.nanos
    }

    /// The largest number of nanoseconds a span can hold (that of `std::time::Duration`).
    pub open spec fn max_nanos() -> int {
        18_446_744_073_709_551_615int * 1_000_000_000 + 999_999_999
    }

    /// Splits a number of nanoseconds into seconds and nanoseconds.
    pub fn from_nanos(n: u128) -> (s: TimeSpan)
        requires
            n <= TimeSpan::max_nanos(),
        ensures
            s.total_nanos() == n,
            s.nanos < NANOS_PER_SEC,
    {
        let secs: u128 = n / 1_000_000_000;
        let nanos: u128 = n % 1_000_000_000;
        assert(secs <= 18_446_744_073_709_551_615) by (nonlinear_arith)
            requires
                secs == n / 1_000_000_000,
                n <= 18_446_744_073_709_551_615 * 1_000_000_000 + 999_999_999;
        TimeSpan { secs: secs as u64, nanos: nanos as u32 }
    }
}

/// The RFC 3339 text that chrono writes for the instant `(secs, nanos)`: `DateTime::<Utc>::to_rfc3339`
/// of `DateTime::from_timestamp(secs, nanos)`.
pub uninterp spec fn rfc3339_of(secs: i64, nanos: u32) -> Seq<char>;

/// The instant that chrono reads from an RFC 3339 text, as `(DateTime::timestamp,
/// DateTime::timestamp_subsec_nanos)` of `DateTime::parse_from_rfc3339`; `None` where chrono refuses the text.
pub uninterp spec fn rfc3339_instant(text: Seq<char>) -> Option<(i64, u32)>;

/// Whether chrono's `DateTime::<Utc>::from_timestamp(secs, nanos)` gives a value: the seconds lie
/// from -262143-01-01T00:00:00 to +262142-12-31T23:59:59 (chrono's `NaiveDate::MIN` and
/// `NaiveDate::MAX`), and the nanoseconds stay below one second, or below two seconds in the last
/// second of a minute (a leap second), as `NaiveTime::from_num_seconds_from_midnight_opt` accepts.
pub open spec fn chrono_representable(secs: i64, nanos: u32) -> bool {
    &&& -8_334_601_228_800 <= secs <= 8_210_266_876_799
    &&& (nanos < NANOS_PER_SEC || (nanos < 2_000_000_000 && secs % 60 == 59))
}

#[verifier::external_type_specification]
#[verifier::external_body]
pub struct ExSystemTime(std::time::SystemTime);

/// std `SystemTime::now`: the system clock's reading. Nothing is stated of it: it is the time of
/// the call.
#[verifier::external_body]
fn system_now() -> (t: std::time::SystemTime) {
    std::time::SystemTime::now()
}

/// std `SystemTime::duration_since(UNIX_EPOCH)`, taken apart by `Duration::as_secs` and
/// `Duration::subsec_nanos`; `None` where the reading lies before the Unix epoch. The
/// nanoseconds past the second stay below one second (std's documentation of `subsec_nanos`).
/// The result is added to `log`, which records every reading so taken.
#[verifier::external_body]
fn since_unix_epoch(t: &std::time::SystemTime, log: &mut ClockLog) -> (r: Option<(u64, u32)>)
    ensures
        r matches Some(d) ==> d.1 < NANOS_PER_SEC,
        final(log).readings() == old(log).readings().push(r),
{
    t.duration_since(std::time::UNIX_EPOCH).ok().map(|d| (d.as_secs(), d.subsec_nanos()))
}

/// chrono `DateTime::<Utc>::to_rfc3339` of the instant, built by `DateTime::from_timestamp`.
/// Claims that the text is the one named by `rfc3339_of`, and that there is a text exactly where
/// `from_timestamp` gives a value (`chrono_representable`).
#[verifier::external_body]
pub(crate) fn format_rfc3339(t: &UtcTime) -> (r: Option<String>)
    ensures
        r is Some <==> chrono_representable(t.secs, t.nanos),
        r matches Some(s) ==> s@ == rfc3339_of(t.secs, t.nanos),
{
    chrono::DateTime::from_timestamp(t.secs, t.nanos).map(|d| d.to_rfc3339())
}

/// chrono `DateTime::parse_from_rfc3339`, taken apart by `DateTime::timestamp` and
/// `DateTime::timestamp_subsec_nanos` (the instant in UTC, whatever offset the text names).
/// Claims that the result is the one named by `rfc3339_instant`.
#[verifier::external_body]
fn parse_rfc3339_parts(text: &str) -> (r: Option<(i64, u32)>)
    ensures
        r == rfc3339_instant(text@),
{
    chrono::DateTime::parse_from_rfc3339(text).ok().map(|d| (d.timestamp(), d.timestamp_subsec_nanos()))
}

/// The instant that chrono reads from an RFC 3339 text (a leap second, `:60`, as nanoseconds
/// from one second up); `None` where chrono refuses the text.
pub open spec fn parsed_instant(text: Seq<char>) -> Option<UtcTime> {
    match rfc3339_instant(text) {
        Some((s, n)) => Some(UtcTime { secs: s, nanos: n }),
        None => None,
    }
}

/// Reads an RFC 3339 text into an instant, as chrono reads it. Texts that chrono refuses give
/// `None`.
pub fn parse_rfc3339(text: &str) -> (r: Option<UtcTime>)
    ensures
        r == parsed_instant(text@),
{
    match parse_rfc3339_parts(text) {
        Some((s, n)) => Some(UtcTime { secs: s, nanos: n }),
        None => None,
    }
}

} // verus!
