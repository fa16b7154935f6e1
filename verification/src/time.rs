//! Calendar dates and points in time.
use chrono::Datelike;
use vstd::prelude::*;

use crate::text;

verus! {

/// A calendar date, as its number of days counted from 1 January of the year 1,
/// which is day 1.
#[derive(Debug, Clone, Copy, PartialEq, Eq, Structural, Hash)]
pub struct NaiveDate {
    pub days: i32,
}

/// A point in time: whole seconds since 1 January 1970 UTC and the nanoseconds
/// past them.
#[derive(Debug, Clone, Copy, PartialEq, Eq, Structural, Hash)]
pub struct Timestamp {
    pub secs: i64,
    pub nanos: u32,
}

impl Timestamp {
    /// Whether this point lies before another.
    pub open spec fn precedes(self, other: Timestamp) -> bool {
        self.secs < other.secs || (self.secs == other.secs && self.nanos < other.nanos)
    }

    /// Whether this point lies before another.
    pub fn before(&self, other: &Timestamp) -> (r: bool)
        ensures
            r == self.precedes(*other),
    {
        self.secs < other.secs || (self.secs == other.secs && self.nanos < other.nanos)
    }
}

/// The text of the date with this number of days, as `chrono` prints it; none
/// where the number lies outside its calendar.
pub uninterp spec fn date_name(days: i32) -> Option<Seq<char>>;

/// Prints a date with `chrono::NaiveDate`: `from_num_days_from_ce_opt` takes the
/// number of days, and `to_string` writes year, month and day. The result
/// depends on the number alone.
#[verifier::external_body]
pub(crate) fn date_text(date: &NaiveDate) -> (r: Option<String>)
    ensures
        text::opt_text(r) == date_name(date.days),
{
    Some(chrono::NaiveDate::from_num_days_from_ce_opt(date.days)?.to_string())
}

/// The year and the month, in UTC, of a point in time, as `chrono` reckons them;
/// none where the point lies outside its calendar.
pub uninterp spec fn year_month_of(secs: i64, nanos: u32) -> Option<(i32, u32)>;

/// Finds the year and the month of a point in time with `chrono`:
/// `DateTime::from_timestamp` takes the point, `year` and `month` read it. The
/// result depends on the point in time alone.
#[verifier::external_body]
pub(crate) fn year_month(at: &Timestamp) -> (r: Option<(i32, u32)>)
    ensures
        r == year_month_of(at.secs, at.nanos),
        r is Some ==> 1 <= (r->0).1 <= 12,
{
    let t = chrono::DateTime::<chrono::Utc>::from_timestamp(at.secs, at.nanos)?;
    Some((t.year(), t.month()))
}

/// The second at which a day begins, in UTC, as `chrono` reckons it; none where
/// its calendar has no such day.
pub uninterp spec fn midnight_of(year: i32, month: u32, day: u32) -> Option<i64>;

/// Finds the beginning of a day with `chrono`: `NaiveDate::from_ymd_opt` takes
/// year, month and day, and its midnight is given as seconds since 1970. The
/// result depends on the three numbers alone. A day begins a whole number of
/// days before or after 1970 did, and a point in time of a month lies no earlier
/// than its first day begins and less than 31 days later.
#[verifier::external_body]
pub(crate) fn midnight(year: i32, month: u32, day: u32) -> (r: Option<i64>)
    ensures
        r == midnight_of(year, month, day),
        r is Some ==> r->0 % 86400 == 0,
        r is Some && day == 1 ==> forall|secs: i64, nanos: u32|
            #[trigger] year_month_of(secs, nanos) == Some((year, month)) ==> r->0 <= secs < r->0
                + 31 * 86400,
{
    let date = chrono::NaiveDate::from_ymd_opt(year, month, day)?;
    Some(date.and_time(chrono::NaiveTime::MIN).and_utc().timestamp())
}

/// The first second of the calendar month, in UTC, that a point in time lies in;
/// none where the point lies outside the calendar.
pub open spec fn month_start_of(secs: i64, nanos: u32) -> Option<i64> {
    match year_month_of(secs, nanos) {
        Some((year, month)) => midnight_of(year, month, 1),
        None => None,
    }
}

/// The beginning of the first day of a month.
pub fn first_of_month(year: i32, month: u32) -> (r: Option<Timestamp>)
    ensures
        match r {
            Some(start) => midnight_of(year, month, 1) == Some(start.secs) && start.nanos == 0
                && start.secs % 86400 == 0,
            None => midnight_of(year, month, 1) is None,
        },
        r is Some ==> forall|secs: i64, nanos: u32|
            #[trigger] year_month_of(secs, nanos) == Some((year, month)) ==> (r->0).secs <= secs
                < (r->0).secs + 31 * 86400,
{
    match midnight(year, month, 1) {
        Some(secs) => Some(Timestamp { secs, nanos: 0 }),
        None => None,
    }
}

/// The beginning of the month that a point in time lies in.
pub fn month_start(now: &Timestamp) -> (r: Option<Timestamp>)
    ensures
        match r {
            Some(start) => {
                &&& month_start_of(now.secs, now.nanos) == Some(start.secs)
                &&& start.nanos == 0
                &&& start.secs % 86400 == 0
                &&& start.secs <= now.secs < start.secs + 31 * 86400
            },
            None => month_start_of(now.secs, now.nanos) is None,
        },
{
    match year_month(now) {
        Some((year, month)) => first_of_month(year, month),
        None => None,
    }
}

impl Timestamp {
    /// Points in time are ordered: of two different ones exactly one comes first, by
    /// whole seconds and then by nanoseconds, and what comes before the earlier comes
    /// before the later.
    pub proof fn times_are_ordered(a: Timestamp, b: Timestamp, c: Timestamp)
        ensures
            a != b <==> a.precedes(b) != b.precedes(a),
            !a.precedes(a),
            a.precedes(b) && b.precedes(c) ==> a.precedes(c),
            a.secs < b.secs ==> a.precedes(b),
            a.secs == b.secs && a.nanos < b.nanos ==> a.precedes(b),
    {
    }
}

} // verus!
