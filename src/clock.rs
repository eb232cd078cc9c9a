//! Local wall-clock readings and the human-readable "time ago" buckets
//! used for date dividers and room previews.

use vstd::prelude::*;
use vstd::string::*;
use chrono::{DateTime, Datelike, Local, NaiveDate, NaiveTime, Timelike};

verus! {

/// A reading of the local wall clock, to the minute.
#[derive(Clone, Copy, Debug, PartialEq, Eq, Structural)]
pub struct LocalTime {
    pub year: i32,
    pub month: u32,
    pub day: u32,
    pub hour: u32,
    pub minute: u32,
}

impl LocalTime {
    /// Each field lies in its calendar range.
    pub open spec fn wf(&self) -> bool {
        &&& 1 <= self.month <= 12
        &&& 1 <= self.day <= 31
        &&& self.hour < 24
        &&& self.minute < 60
    }

    /// The same day at midnight.
    pub open spec fn spec_date(&self) -> LocalTime {
        LocalTime { year: self.year, month: self.month, day: self.day, hour: 0, minute: 0 }
    }

    /// The same day at midnight.
    pub fn date(&self) -> (r: LocalTime)
        ensures
            r == self.spec_date(),
    {
        LocalTime { year: self.year, month: self.month, day: self.day, hour: 0, minute: 0 }
    }
}

/// The patterns that clock readings are rendered with.
pub open spec fn known_pattern(p: Seq<char>) -> bool {
    p == "%m-%d"@ || p == "%Y-%m-%d"@ || p == "%A, %-d %B"@ || p == "%-d %B, %Y"@
}

/// What chrono's strftime-style rendering gives for a reading and a pattern.
pub uninterp spec fn formatted_local(t: LocalTime, pattern: Seq<char>) -> Seq<char>;

/// Relies on chrono's `NaiveDate::from_ymd_opt`, `and_hms_opt` and
/// `format(..).to_string()`: the text depends on the reading and the pattern
/// alone (empty for a day that the calendar lacks). The patterns admitted are
/// valid, so rendering does not fail.
#[verifier::external_body]
fn format_local(t: &LocalTime, pattern: &str) -> (r: String)
    requires
        known_pattern(pattern@),
    ensures
        r@ == formatted_local(*t, pattern@),
{
    match NaiveDate::from_ymd_opt(t.year, t.month, t.day) {
        Some(d) => match d.and_hms_opt(t.hour, t.minute, 0) {
            Some(dt) => dt.format(pattern).to_string(),
            None => String::new(),
        },
        None => String::new(),
    }
}

/// Instants this far from the Unix epoch, in microseconds, lie well inside
/// the calendar's range (about 253,000 years either way).
pub const CLOCK_RANGE_MICROS: i64 = 8_000_000_000_000_000_000;

/// The instant can be read on the calendar.
pub open spec fn in_clock_range(micros: i64) -> bool {
    -CLOCK_RANGE_MICROS <= micros <= CLOCK_RANGE_MICROS
}

/// A decimal digit.
pub open spec fn digit(d: int) -> char {
    seq!['0', '1', '2', '3', '4', '5', '6', '7', '8', '9'][d]
}

/// A number below 100 as two digits, zero-padded.
pub open spec fn two_digits(n: int) -> Seq<char> {
    seq![digit(n / 10), digit(n % 10)]
}

/// The clock time of a reading as hours and minutes, two digits each;
/// empty for a time the clock does not show.
pub open spec fn clock_text(hour: u32, minute: u32) -> Seq<char> {
    if hour < 24 && minute < 60 {
        two_digits(hour as int) + ":"@ + two_digits(minute as int)
    } else {
        Seq::empty()
    }
}

/// Relies on chrono's `NaiveTime::from_hms_opt` and `format("%H:%M")`:
/// hours and minutes, each written as two zero-padded digits; `None`, which
/// renders as the empty string, for an hour or minute out of range.
#[verifier::external_body]
fn format_clock(hour: u32, minute: u32) -> (r: String)
    ensures
        r@ == clock_text(hour, minute),
{
    match NaiveTime::from_hms_opt(hour, minute, 0) {
        Some(t) => t.format("%H:%M").to_string(),
        None => String::new(),
    }
}

/// Relies on chrono's `DateTime::from_timestamp_micros` and
/// `with_timezone(&Local)`: `None` only when the instant lies beyond the
/// calendar's years (-262144 to 262143), so never within
/// `CLOCK_RANGE_MICROS`; otherwise a calendar reading in the machine's time
/// zone.
#[verifier::external_body]
pub(crate) fn local_time_of(micros: i64) -> (r: Option<LocalTime>)
    ensures
        r matches Some(t) ==> t.wf(),
        in_clock_range(micros) ==> r is Some,
{
    match DateTime::from_timestamp_micros(micros) {
        Some(utc) => {
            let t = utc.with_timezone(&Local);
            Some(LocalTime { year: t.year(), month: t.month(), day: t.day(), hour: t.hour(), minute: t.minute() })
        }
        None => None,
    }
}

/// Relies on chrono's `Local::now`: the current reading of the machine's clock.
#[verifier::external_body]
pub(crate) fn local_now() -> (r: LocalTime)
    ensures
        r.wf(),
{
    let t = Local::now();
    LocalTime { year: t.year(), month: t.month(), day: t.day(), hour: t.hour(), minute: t.minute() }
}

/// The divider bucket of a message: how long ago its day was.
#[derive(Clone, Copy, Debug, PartialEq, Eq, Structural)]
pub enum TimeAgo {
    Today,
    Yesterday,
    /// Earlier this year: rendered as weekday, day and month.
    ThisYear(LocalTime),
    /// An earlier year: rendered as day, month and year.
    EarlierYear(LocalTime),
}

/// The bucket of `time` seen from `now`; the weekday/date buckets keep the
/// day only, so two readings of one day fall into one bucket.
pub open spec fn spec_time_ago(time: LocalTime, now: LocalTime) -> TimeAgo {
    if now.year > time.year {
        TimeAgo::EarlierYear(time.spec_date())
    } else if now.month != time.month {
        TimeAgo::ThisYear(time.spec_date())
    } else if now.day == time.day {
        TimeAgo::Today
    } else if now.day == time.day + 1 {
        TimeAgo::Yesterday
    } else {
        TimeAgo::ThisYear(time.spec_date())
    }
}

/// Bucket a reading by how long ago its day was, seen from `now`.
pub fn time_ago(time: &LocalTime, now: &LocalTime) -> (r: TimeAgo)
    ensures
        r == spec_time_ago(*time, *now),
{
    if now.year > time.year {
        TimeAgo::EarlierYear(time.date())
    } else if now.month != time.month {
        TimeAgo::ThisYear(time.date())
    } else if now.day == time.day {
        TimeAgo::Today
    } else if time.day < u32::MAX && now.day == time.day + 1 {
        TimeAgo::Yesterday
    } else {
        TimeAgo::ThisYear(time.date())
    }
}

impl TimeAgo {
    pub open spec fn spec_label(&self) -> Seq<char> {
        match self {
            TimeAgo::Today => "Today"@,
            TimeAgo::Yesterday => "Yesterday"@,
            TimeAgo::ThisYear(t) => formatted_local(*t, "%A, %-d %B"@),
            TimeAgo::EarlierYear(t) => formatted_local(*t, "%-d %B, %Y"@),
        }
    }

    /// The text shown on a divider.
    pub fn label(&self) -> (r: String)
        ensures
            r@ == self.spec_label(),
    {
        match self {
            TimeAgo::Today => String::from_str("Today"),
            TimeAgo::Yesterday => String::from_str("Yesterday"),
            TimeAgo::ThisYear(t) => format_local(t, "%A, %-d %B"),
            TimeAgo::EarlierYear(t) => format_local(t, "%-d %B, %Y"),
        }
    }
}

/// The short form of how long ago a reading was, for room previews.
#[derive(Clone, Copy, Debug, PartialEq, Eq, Structural)]
pub enum ShortTime {
    /// Today: the clock time.
    Clock(LocalTime),
    Yesterday,
    /// Earlier this year: month and day.
    MonthDay(LocalTime),
    /// An earlier year: the full numeric date.
    FullDate(LocalTime),
}

pub open spec fn spec_time_ago_short(time: LocalTime, now: LocalTime) -> ShortTime {
    if now.year > time.year {
        ShortTime::FullDate(time)
    } else if now.month != time.month {
        ShortTime::MonthDay(time)
    } else if now.day == time.day {
        ShortTime::Clock(time)
    } else if now.day == time.day + 1 {
        ShortTime::Yesterday
    } else {
        ShortTime::MonthDay(time)
    }
}

/// Bucket a reading in the short form, seen from `now`.
pub fn time_ago_short(time: &LocalTime, now: &LocalTime) -> (r: ShortTime)
    ensures
        r == spec_time_ago_short(*time, *now),
{
    if now.year > time.year {
        ShortTime::FullDate(*time)
    } else if now.month != time.month {
        ShortTime::MonthDay(*time)
    } else if now.day == time.day {
        ShortTime::Clock(*time)
    } else if time.day < u32::MAX && now.day == time.day + 1 {
        ShortTime::Yesterday
    } else {
        ShortTime::MonthDay(*time)
    }
}

impl ShortTime {
    pub open spec fn spec_label(&self) -> Seq<char> {
        match self {
            ShortTime::Clock(t) => clock_text(t.hour, t.minute),
            ShortTime::Yesterday => "Yesterday"@,
            ShortTime::MonthDay(t) => formatted_local(*t, "%m-%d"@),
            ShortTime::FullDate(t) => formatted_local(*t, "%Y-%m-%d"@),
        }
    }

    /// The text shown in a room preview.
    pub fn label(&self) -> (r: String)
        ensures
            r@ == self.spec_label(),
    {
        match self {
            ShortTime::Clock(t) => format_clock(t.hour, t.minute),
            ShortTime::Yesterday => String::from_str("Yesterday"),
            ShortTime::MonthDay(t) => format_local(t, "%m-%d"),
            ShortTime::FullDate(t) => format_local(t, "%Y-%m-%d"),
        }
    }
}

/// The clock time of a reading, as hours and minutes.
pub fn time_local(time: &LocalTime) -> (r: String)
    ensures
        r@ == clock_text(time.hour, time.minute),
{
    format_clock(time.hour, time.minute)
}

} // verus!
