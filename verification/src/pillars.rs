//! The four pillars of a moment: the stem-branch pairs of its year, month,
//! day and hour.

use crate::cycle::{
    cycle_index, cycle_text, format_gz, get_cycle_index, gz_text, position_in_cycle,
    stem_branch_text,
};
use crate::jieqi::{
    candidates_are_apart, collect_window, has_candidate, is_latest_candidate,
    lemma_latest_is_order_independent, same_terms, select_latest, window_terms,
};
use crate::moment::{
    day_number, days_between, is_date, lemma_consecutive_dates, lemma_day_number_bounds, next_date,
    previous_date, Moment,
};
use crate::table::{
    month_index_from_jie, month_index_of_name, record_at, ParsedJieQi, ParsedYearData, YearTable,
};
use vstd::prelude::*;
use vstd::string::*;

verus! {

/// The pillars of a moment, each a two-glyph text.
#[derive(Debug)]
pub struct BaziPillars {
    pub year: String,
    pub month: String,
    pub day: String,
    pub hour: String,
}

/// The year of the date whose day pillar anchors the count.
pub const REFERENCE_YEAR: i32 = 1900;

/// The cycle position of the day pillar of the reference date, the first
/// day of `REFERENCE_YEAR`.
pub const REFERENCE_DAY_INDEX: i64 = 10;

/// The year whose pillar a moment of `year` takes: the year before, where
/// the moment precedes that year's start of spring.
pub open spec fn bazi_year_of(moment: Moment, lichun: Moment) -> int {
    if moment.before(lichun) {
        moment.year - 1
    } else {
        moment.year as int
    }
}

/// The stem position of a month from the stem position of its year and
/// its month ordinal.
pub open spec fn month_stem_index(year_stem: int, month_index: int) -> int {
    (year_stem * 2 + month_index + 2) % 10
}

/// The branch position of a month; month 0 has the third branch.
pub open spec fn month_branch_index(month_index: int) -> int {
    (month_index + 2) % 12
}

/// The cycle position of the day pillar of the day with count `day`.
pub open spec fn day_cycle_index(day: int) -> int {
    (REFERENCE_DAY_INDEX + day - day_number(REFERENCE_YEAR as int, 1)) % 60
}

/// The branch position of an hour of the day: two-hour spans, the first
/// of which starts at 23:00.
pub open spec fn hour_branch_index(hour: int) -> int {
    ((hour + 1) / 2) % 12
}

/// The stem position of an hour from the stem position of its day and
/// its branch position.
pub open spec fn hour_stem_index(day_stem: int, hour_branch: int) -> int {
    (day_stem * 2 + hour_branch) % 10
}

/// The text of the month pillar.
pub open spec fn month_text(year_index: int, month_index: int) -> Seq<char> {
    gz_text(month_stem_index(year_index % 10, month_index), month_branch_index(month_index))
}

/// The text of the hour pillar.
pub open spec fn hour_text(day_index: int, hour: int) -> Seq<char> {
    gz_text(hour_stem_index(day_index % 10, hour_branch_index(hour)), hour_branch_index(hour))
}

/// The text of all four pillars in display order.
pub open spec fn pillars_text(pillars: BaziPillars) -> Seq<char> {
    pillars.year@ + "年 "@ + pillars.month@ + "月 "@ + pillars.day@ + "日 "@ + pillars.hour@
        + "时"@
}

/// From one calendar date to the next the day pillar advances by one
/// position of the cycle, and from a date to the one before it the pillar
/// falls back by one, whichever side of the reference date they lie on.
pub proof fn lemma_day_pillar_advances(year: int, ordinal: int)
    requires
        is_date(year, ordinal),
    ensures
        day_cycle_index(day_number(next_date(year, ordinal).0, next_date(year, ordinal).1)) == (
        day_cycle_index(day_number(year, ordinal)) + 1) % 60,
        day_cycle_index(day_number(year, ordinal)) == (day_cycle_index(
            day_number(previous_date(year, ordinal).0, previous_date(year, ordinal).1),
        ) + 1) % 60,
        0 <= day_cycle_index(day_number(year, ordinal)) < 60,
        day_cycle_index(day_number(REFERENCE_YEAR as int, 1)) == REFERENCE_DAY_INDEX,
{
    lemma_consecutive_dates(year, ordinal);
    let anchor = REFERENCE_DAY_INDEX - day_number(REFERENCE_YEAR as int, 1);
    let today = day_number(year, ordinal);
    assert((anchor + today + 1) % 60 == ((anchor + today) % 60 + 1) % 60);
    assert((anchor + today) % 60 == ((anchor + today - 1) % 60 + 1) % 60);
}

impl BaziPillars {
    /// The four pillars in display order, each followed by its unit.
    pub fn to_string(&self) -> (text: String)
        ensures
            text@ == pillars_text(*self),
    {
        let mut text = self.year.clone();
        text.append("年 ");
        text.append(self.month.as_str());
        text.append("月 ");
        text.append(self.day.as_str());
        text.append("日 ");
        text.append(self.hour.as_str());
        text.append("时");
        text
    }
}

/// The year whose pillar `moment` takes, given the start of spring of the
/// moment's calendar year.
pub fn bazi_year(moment: &Moment, lichun: &Moment) -> (year: i32)
    requires
        moment.year > i32::MIN,
    ensures
        year as int == bazi_year_of(*moment, *lichun),
{
    if moment.is_before(lichun) {
        moment.year - 1
    } else {
        moment.year
    }
}

/// The month pillar from the cycle position of the year and the month
/// ordinal.
pub fn month_pillar(year_index: usize, month_index: usize) -> (text: String)
    requires
        year_index < 60,
        month_index < 12,
    ensures
        text@ == month_text(year_index as int, month_index as int),
{
    let year_stem: usize = year_index % 10;
    let stem: usize = (year_stem * 2 + month_index + 2) % 10;
    let branch: usize = (month_index + 2) % 12;
    stem_branch_text(stem, branch)
}

/// The cycle position of the day pillar of `moment`.
pub fn day_pillar_index(moment: &Moment) -> (index: usize)
    requires
        moment.wf(),
    ensures
        index as int == day_cycle_index(moment.day_number()),
        index < 60,
{
    let reference = Moment { year: REFERENCE_YEAR, ordinal: 1, second: 0 };
    let diff_days: i64 = days_between(moment, &reference);
    proof {
        lemma_day_number_bounds(moment.year as int, moment.ordinal as int);
        lemma_day_number_bounds(REFERENCE_YEAR as int, 1);
    }
    position_in_cycle(REFERENCE_DAY_INDEX + diff_days)
}

/// The hour pillar from the cycle position of the day and the hour of
/// the day.
pub fn hour_pillar(day_index: usize, hour: u32) -> (text: String)
    requires
        day_index < 60,
        hour < 24,
    ensures
        text@ == hour_text(day_index as int, hour as int),
{
    let branch: usize = (((hour + 1) / 2) % 12) as usize;
    let day_stem: usize = day_index % 10;
    let stem: usize = (day_stem * 2 + branch) % 10;
    stem_branch_text(stem, branch)
}

/// `pillars` are the pillars of `moment`, given the start of spring of its
/// calendar year and the terms around it: the year pillar of the year that
/// the start of spring assigns, the month pillar of the latest month
/// boundary at or before the moment, and the day and hour pillars counted
/// from the reference date.
pub open spec fn pillars_over(
    pillars: BaziPillars,
    lichun: Moment,
    terms: Seq<ParsedJieQi>,
    moment: Moment,
) -> bool {
    let year_index = cycle_index(bazi_year_of(moment, lichun));
    let day_index = day_cycle_index(moment.day_number());
    &&& pillars.year@ == cycle_text(year_index)
    &&& exists|i: int|
        is_latest_candidate(terms, moment, true, i) && pillars.month@ == month_text(
            year_index,
            month_index_of_name((#[trigger] terms[i]).name@).unwrap(),
        )
    &&& pillars.day@ == cycle_text(day_index)
    &&& pillars.hour@ == hour_text(day_index, moment.hour_of_day())
}

/// `pillars` are the pillars of `moment` over the table: those over the
/// start of spring of the moment's year and the three-year window of terms.
pub open spec fn pillars_of(pillars: BaziPillars, table: Seq<ParsedYearData>, moment: Moment) -> bool {
    pillars_over(
        pillars,
        record_at(table, moment.year as int).unwrap().lichun_time,
        window_terms(table, moment.year as int),
        moment,
    )
}

/// The pillars do not depend on the order in which the terms are scanned:
/// over two lists that hold the same terms, in which no two month
/// boundaries at or before the moment share an instant, the pillars carry
/// the same four texts.
pub proof fn lemma_pillars_are_order_independent(
    p: BaziPillars,
    q: BaziPillars,
    lichun: Moment,
    a: Seq<ParsedJieQi>,
    b: Seq<ParsedJieQi>,
    moment: Moment,
)
    requires
        same_terms(a, b),
        candidates_are_apart(a, moment, true),
        pillars_over(p, lichun, a, moment),
        pillars_over(q, lichun, b, moment),
    ensures
        p.year@ == q.year@,
        p.month@ == q.month@,
        p.day@ == q.day@,
        p.hour@ == q.hour@,
{
    let year_index = cycle_index(bazi_year_of(moment, lichun));
    let i = choose|i: int|
        is_latest_candidate(a, moment, true, i) && p.month@ == month_text(
            year_index,
            month_index_of_name((#[trigger] a[i]).name@).unwrap(),
        );
    let k = choose|k: int|
        is_latest_candidate(b, moment, true, k) && q.month@ == month_text(
            year_index,
            month_index_of_name((#[trigger] b[k]).name@).unwrap(),
        );
    lemma_latest_is_order_independent(a, b, moment, true, i, k);
}

/// The four pillars of `dt`, given the start of spring of its calendar
/// year and the terms around it; nothing where no month boundary of
/// `terms` lies at or before `dt`.
pub fn pillars_from(lichun: &Moment, terms: &Vec<ParsedJieQi>, dt: Moment) -> (pillars: Option<
    BaziPillars,
>)
    requires
        dt.wf(),
    ensures
        pillars.is_some() == has_candidate(terms@, dt, true),
        pillars matches Some(p) ==> pillars_over(p, *lichun, terms@, dt),
{
    let year_index = get_cycle_index(bazi_year(&dt, lichun));
    let year_gz = format_gz(year_index);

    let found = match select_latest(terms, &dt, true) {
        Some(i) => i,
        None => {
            return None;
        },
    };
    let month_idx = match month_index_from_jie(terms[found].name.as_str()) {
        Some(m) => m,
        None => {
            return None;
        },
    };
    let month_gz = month_pillar(year_index, month_idx);

    let day_idx = day_pillar_index(&dt);
    let day_gz = format_gz(day_idx);
    let hour_gz = hour_pillar(day_idx, dt.hour());

    let pillars = BaziPillars { year: year_gz, month: month_gz, day: day_gz, hour: hour_gz };
    assert(pillars.month@ == month_text(
        year_index as int,
        month_index_of_name(terms@[found as int].name@).unwrap(),
    ));
    Some(pillars)
}

/// The four pillars of `dt`; nothing where the table has no record of the
/// moment's year, or the window holds no month boundary at or before it.
/// Either all four pillars are returned or none.
pub fn get_pillars(table: &YearTable, dt: Moment) -> (pillars: Option<BaziPillars>)
    requires
        table.wf(),
        dt.wf(),
    ensures
        pillars.is_some() == (record_at(table@, dt.year as int).is_some() && has_candidate(
            window_terms(table@, dt.year as int),
            dt,
            true,
        )),
        pillars matches Some(p) ==> pillars_of(p, table@, dt),
{
    let year_data = match table.parsed_year_data(dt.year) {
        Some(record) => record,
        None => {
            return None;
        },
    };
    let terms = collect_window(table, dt.year);
    pillars_from(&year_data.lichun_time, &terms, dt)
}

} // verus!
