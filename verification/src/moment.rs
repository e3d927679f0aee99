//! A naive local timestamp of whole-second precision, held as a year, a day
//! of the year and a second of the day, with the proleptic Gregorian day
//! count that differences between timestamps are measured in.

use chrono::{Datelike, NaiveDate, NaiveDateTime, NaiveTime, Timelike};
use vstd::prelude::*;

verus! {

/// The earliest year a timestamp can lie in.
pub const MIN_MOMENT_YEAR: i32 = -262143;

/// The latest year a timestamp can lie in.
pub const MAX_MOMENT_YEAR: i32 = 262142;

/// Seconds in a day.
pub const SECONDS_PER_DAY: u32 = 86400;

/// A moment of local wall-clock time: the calendar year, the day of that
/// year counted from 1, and the second of that day counted from 0.
#[derive(Clone, Copy, Debug, PartialEq, Eq)]
pub struct Moment {
    pub year: i32,
    pub ordinal: u32,
    pub second: u32,
}

/// Whether `year` is a leap year of the proleptic Gregorian calendar.
pub open spec fn is_leap_year(year: int) -> bool {
    year % 4 == 0 && (year % 100 != 0 || year % 400 == 0)
}

/// The number of days of `year`.
pub open spec fn days_in_year(year: int) -> int {
    if is_leap_year(year) {
        366
    } else {
        365
    }
}

/// The number of days between 0001-01-01 and the first day of `year`
/// (negative for years before 1).
#[verifier::opaque]
pub open spec fn days_before_year(year: int) -> int {
    365 * (year - 1) + (year - 1) / 4 - (year - 1) / 100 + (year - 1) / 400
}

/// The day count of day `ordinal` of `year`; 0001-01-01 has count 1.
pub open spec fn day_number(year: int, ordinal: int) -> int {
    days_before_year(year) + ordinal
}

/// Whether day `ordinal` exists in `year`.
pub open spec fn is_date(year: int, ordinal: int) -> bool {
    1 <= ordinal <= days_in_year(year)
}

/// The calendar date that follows day `ordinal` of `year`.
pub open spec fn next_date(year: int, ordinal: int) -> (int, int) {
    if ordinal < days_in_year(year) {
        (year, ordinal + 1)
    } else {
        (year + 1, 1)
    }
}

/// The calendar date that precedes day `ordinal` of `year`.
pub open spec fn previous_date(year: int, ordinal: int) -> (int, int) {
    if ordinal > 1 {
        (year, ordinal - 1)
    } else {
        (year - 1, days_in_year(year - 1))
    }
}

impl Moment {
    /// The moment names an existing day and second within the years that
    /// timestamps can lie in.
    pub open spec fn wf(self) -> bool {
        &&& MIN_MOMENT_YEAR <= self.year <= MAX_MOMENT_YEAR
        &&& is_date(self.year as int, self.ordinal as int)
        &&& self.second < SECONDS_PER_DAY
    }

    /// The day count of the moment's date.
    pub open spec fn day_number(self) -> int {
        day_number(self.year as int, self.ordinal as int)
    }

    /// The position of the moment on the line of seconds, whose zero is the
    /// start of the day before 0001-01-01.
    pub open spec fn abs_seconds(self) -> int {
        self.day_number() * 86400 + self.second
    }

    /// The hour of the day, 0 to 23.
    pub open spec fn hour_of_day(self) -> int {
        self.second as int / 3600
    }

    /// The text the moment is displayed as.
    pub open spec fn display_text(self) -> Seq<char> {
        timestamp_display(self.year as int, self.ordinal as int, self.second as int)
    }

    /// `self` is not later than `other`.
    pub open spec fn at_or_before(self, other: Moment) -> bool {
        self.year < other.year || (self.year == other.year && (self.ordinal < other.ordinal || (
        self.ordinal == other.ordinal && self.second <= other.second)))
    }

    /// `self` is earlier than `other`.
    pub open spec fn before(self, other: Moment) -> bool {
        !other.at_or_before(self)
    }

    /// Checks the three fields and builds the moment they name.
    pub fn new(year: i32, ordinal: u32, second: u32) -> (made: Option<Moment>)
        ensures
            made.is_some() <==> (Moment { year, ordinal, second }).wf(),
            made matches Some(m) ==> m == (Moment { year, ordinal, second }),
    {
        let m = Moment { year, ordinal, second };
        if m.is_valid() {
            Some(m)
        } else {
            None
        }
    }

    /// Whether the moment is well formed.
    pub fn is_valid(&self) -> (valid: bool)
        ensures
            valid == self.wf(),
    {
        if self.year < MIN_MOMENT_YEAR || self.year > MAX_MOMENT_YEAR {
            return false;
        }
        if self.second >= SECONDS_PER_DAY || self.ordinal < 1 {
            return false;
        }
        let leap = year_is_leap(self.year);
        self.ordinal <= 365 || (leap && self.ordinal == 366)
    }

    /// Whether `self` is not later than `other`.
    pub fn is_at_or_before(&self, other: &Moment) -> (holds: bool)
        ensures
            holds == self.at_or_before(*other),
    {
        self.year < other.year || (self.year == other.year && (self.ordinal < other.ordinal || (
        self.ordinal == other.ordinal && self.second <= other.second)))
    }

    /// Whether `self` is earlier than `other`.
    pub fn is_before(&self, other: &Moment) -> (holds: bool)
        ensures
            holds == self.before(*other),
    {
        !other.is_at_or_before(self)
    }

    /// The hour of the day, 0 to 23.
    pub fn hour(&self) -> (h: u32)
        ensures
            h as int == self.hour_of_day(),
    {
        self.second / 3600
    }
}

/// Whether `year` is a leap year.
pub fn year_is_leap(year: i32) -> (leap: bool)
    ensures
        leap == is_leap_year(year as int),
{
    let by4 = year.checked_rem_euclid(4);
    let by100 = year.checked_rem_euclid(100);
    let by400 = year.checked_rem_euclid(400);
    match (by4, by100, by400) {
        (Some(a), Some(b), Some(c)) => a == 0 && (b != 0 || c == 0),
        _ => false,
    }
}

/// The first day of a year comes one year's length after the first day of
/// the year before it.
pub proof fn lemma_year_step(year: int)
    ensures
        days_before_year(year + 1) == days_before_year(year) + days_in_year(year),
{
    reveal(days_before_year);
    let n = year - 1;
    let by4: int = if year % 4 == 0 { 1 } else { 0 };
    let by100: int = if year % 100 == 0 { 1 } else { 0 };
    let by400: int = if year % 400 == 0 { 1 } else { 0 };
    assert((n + 1) / 4 == n / 4 + by4);
    assert((n + 1) / 100 == n / 100 + by100);
    assert((n + 1) / 400 == n / 400 + by400);
    assert(year % 100 == 0 ==> year % 4 == 0) by {
        if year % 100 == 0 {
            assert(year == 100 * (year / 100));
            assert(year == 4 * (25 * (year / 100)));
        }
    }
    assert(year % 400 == 0 ==> year % 100 == 0) by {
        if year % 400 == 0 {
            assert(year == 400 * (year / 400));
            assert(year == 100 * (4 * (year / 400)));
        }
    }
    assert(days_in_year(year) == 365 + by4 - by100 + by400);
}

/// Consecutive calendar dates have consecutive day counts, in both
/// directions and across the end of a year.
pub proof fn lemma_consecutive_dates(year: int, ordinal: int)
    requires
        is_date(year, ordinal),
    ensures
        is_date(next_date(year, ordinal).0, next_date(year, ordinal).1),
        day_number(next_date(year, ordinal).0, next_date(year, ordinal).1) == day_number(
            year,
            ordinal,
        ) + 1,
        is_date(previous_date(year, ordinal).0, previous_date(year, ordinal).1),
        day_number(previous_date(year, ordinal).0, previous_date(year, ordinal).1) == day_number(
            year,
            ordinal,
        ) - 1,
{
    lemma_year_step(year);
    lemma_year_step(year - 1);
}

/// The day counts of the years that timestamps can lie in stay within
/// a hundred million days of the first day of year 1.
pub proof fn lemma_day_number_bounds(year: int, ordinal: int)
    requires
        MIN_MOMENT_YEAR <= year <= MAX_MOMENT_YEAR,
        is_date(year, ordinal),
    ensures
        -100_000_000 < day_number(year, ordinal) < 100_000_000,
{
    reveal(days_before_year);
    assert(-65536 <= (year - 1) / 4 <= 65536);
    assert(-2622 <= (year - 1) / 100 <= 2622);
    assert(-656 <= (year - 1) / 400 <= 656);
}

/// A later year starts at least 365 days per year of distance later.
pub proof fn lemma_years_ascend(earlier: int, later: int)
    requires
        earlier <= later,
    ensures
        days_before_year(later) - days_before_year(earlier) >= 365 * (later - earlier),
    decreases later - earlier,
{
    if earlier < later {
        lemma_years_ascend(earlier, later - 1);
        lemma_year_step(later - 1);
    }
}

/// The order of moments by their fields is the order of their positions on
/// the line of seconds.
pub proof fn lemma_order_is_linear(a: Moment, b: Moment)
    requires
        a.wf(),
        b.wf(),
    ensures
        a.at_or_before(b) <==> a.abs_seconds() <= b.abs_seconds(),
        a.before(b) <==> a.abs_seconds() < b.abs_seconds(),
        a.abs_seconds() == b.abs_seconds() <==> a == b,
{
    if a.year < b.year {
        lemma_year_step(a.year as int);
        lemma_years_ascend(a.year as int + 1, b.year as int);
    } else if b.year < a.year {
        lemma_year_step(b.year as int);
        lemma_years_ascend(b.year as int + 1, a.year as int);
    }
}

/// What the timestamp text `text` denotes under the pattern
/// `%Y-%m-%d %H:%M:%S`: the year, the day of the year and the second of
/// the day, or nothing where the text does not parse.
pub uninterp spec fn timestamp_text_fields(text: Seq<char>) -> Option<(int, int, int)>;

/// The moment that a timestamp text denotes, if it denotes one.
pub open spec fn moment_of_text(text: Seq<char>) -> Option<Moment> {
    match timestamp_text_fields(text) {
        Some((year, ordinal, second)) => Some(
            Moment { year: year as i32, ordinal: ordinal as u32, second: second as u32 },
        ),
        None => None,
    }
}

/// Calls `chrono::NaiveDateTime::parse_from_str` with the pattern
/// `%Y-%m-%d %H:%M:%S` and reads the year, the day of the year and the
/// second of the day off the result. Trusted: the outcome depends on the
/// text alone, and a parsed timestamp names an existing day and second
/// within chrono's range of years.
#[verifier::external_body]
fn parse_ts(text: &str) -> (parsed: Option<Moment>)
    ensures
        parsed matches Some(m) ==> m.wf() && timestamp_text_fields(text@) == Some(
            (m.year as int, m.ordinal as int, m.second as int),
        ),
        parsed.is_none() ==> timestamp_text_fields(text@).is_none(),
{
    match NaiveDateTime::parse_from_str(text, "%Y-%m-%d %H:%M:%S") {
        Ok(dt) => Some(
            Moment { year: dt.year(), ordinal: dt.ordinal(), second: dt.num_seconds_from_midnight() },
        ),
        Err(_) => None,
    }
}

/// Calls `chrono::NaiveDate::signed_duration_since` on the dates of two
/// moments and takes the whole days of the result. Trusted: the result is
/// the difference of the two proleptic Gregorian day counts.
#[verifier::external_body]
pub(crate) fn days_between(later: &Moment, earlier: &Moment) -> (days: i64)
    requires
        later.wf(),
        earlier.wf(),
    ensures
        days as int == later.day_number() - earlier.day_number(),
{
    let a = NaiveDate::from_yo_opt(later.year, later.ordinal).unwrap();
    let b = NaiveDate::from_yo_opt(earlier.year, earlier.ordinal).unwrap();
    a.signed_duration_since(b).num_days()
}

/// Calls `chrono::NaiveDateTime::signed_duration_since` on two moments and
/// takes the whole seconds of the result. Trusted: the result is the
/// difference of the two positions on the line of seconds, a day counting
/// 86400 seconds.
#[verifier::external_body]
fn seconds_between(later: &Moment, earlier: &Moment) -> (seconds: i64)
    requires
        later.wf(),
        earlier.wf(),
    ensures
        seconds as int == later.abs_seconds() - earlier.abs_seconds(),
{
    let a = NaiveDate::from_yo_opt(later.year, later.ordinal).unwrap().and_time(
        NaiveTime::from_num_seconds_from_midnight_opt(later.second, 0).unwrap(),
    );
    let b = NaiveDate::from_yo_opt(earlier.year, earlier.ordinal).unwrap().and_time(
        NaiveTime::from_num_seconds_from_midnight_opt(earlier.second, 0).unwrap(),
    );
    a.signed_duration_since(b).num_seconds()
}

/// The text that a timestamp is displayed as, by its year, its day of the
/// year and its second of the day.
pub uninterp spec fn timestamp_display(year: int, ordinal: int, second: int) -> Seq<char>;

/// Formats a moment through the `Display` of `chrono::NaiveDateTime`, which
/// writes the date, a space and the time of day. Trusted: the text depends
/// on the moment's three fields alone.
#[verifier::external_body]
fn display_ts(moment: &Moment) -> (text: String)
    requires
        moment.wf(),
    ensures
        text@ == timestamp_display(
            moment.year as int,
            moment.ordinal as int,
            moment.second as int,
        ),
{
    let date = NaiveDate::from_yo_opt(moment.year, moment.ordinal).unwrap();
    let time = NaiveTime::from_num_seconds_from_midnight_opt(moment.second, 0).unwrap();
    date.and_time(time).to_string()
}

/// Parses a timestamp written as `YYYY-MM-DD HH:MM:SS`.
pub fn parse_timestamp(text: &str) -> (parsed: Option<Moment>)
    ensures
        parsed == moment_of_text(text@),
        parsed matches Some(m) ==> m.wf(),
{
    parse_ts(text)
}

/// The display text of a moment: the date, a space and the time of day.
pub fn format_timestamp(moment: &Moment) -> (text: String)
    requires
        moment.wf(),
    ensures
        text@ == moment.display_text(),
{
    display_ts(moment)
}

/// Seconds from `earlier` to `later`; not negative exactly when `earlier`
/// is not the later of the two.
pub fn seconds_from(later: &Moment, earlier: &Moment) -> (seconds: i64)
    requires
        later.wf(),
        earlier.wf(),
    ensures
        seconds as int == later.abs_seconds() - earlier.abs_seconds(),
        seconds >= 0 <==> earlier.at_or_before(*later),
        seconds > 0 <==> earlier.before(*later),
{
    proof {
        lemma_order_is_linear(*earlier, *later);
    }
    seconds_between(later, earlier)
}

} // verus!
