//! The solar terms around a moment: the three-year window of terms, the
//! latest term at or before the moment and the earliest term after it.

use crate::decimal::{decimal_string, decimal_text};
use crate::moment::{format_timestamp, seconds_from, Moment};
use crate::table::{
    month_index_from_jie, month_index_of_name, record_at, ParsedJieQi, ParsedYearData, YearTable,
};
use vstd::prelude::*;
use vstd::string::*;

verus! {

/// The solar terms on both sides of a moment, with the seconds between
/// each of them and the moment.
#[derive(Debug)]
pub struct JieQiContext {
    pub prev_name: String,
    pub prev_time: Moment,
    pub next_name: String,
    pub next_time: Moment,
    pub diff_prev_seconds: i64,
    pub diff_next_seconds: i64,
}

/// The text of the whole days of a span of seconds, the day sign, the
/// whole hours left over and the hour sign.
pub open spec fn span_text(seconds: int) -> Seq<char> {
    decimal_text((seconds / 86400) as nat) + "天"@ + decimal_text(((seconds % 86400) / 3600) as nat)
        + "小时"@
}

/// The text of one side of a context: the side's label, the term's name
/// and, in brackets, its instant and its distance.
pub open spec fn side_text(label: Seq<char>, name: Seq<char>, time: Moment, seconds: int) -> Seq<
    char,
> {
    label + name + " ("@ + time.display_text() + ", 距今 "@ + span_text(seconds) + ")"@
}

impl JieQiContext {
    /// Both instants are well formed and both distances are not negative.
    pub open spec fn wf(self) -> bool {
        &&& self.prev_time.wf()
        &&& self.next_time.wf()
        &&& self.diff_prev_seconds >= 0
        &&& self.diff_next_seconds >= 0
    }

    /// The display text of the context.
    pub open spec fn text(self) -> Seq<char> {
        side_text("前气: "@, self.prev_name@, self.prev_time, self.diff_prev_seconds as int)
            + ", "@ + side_text(
            "后气: "@,
            self.next_name@,
            self.next_time,
            self.diff_next_seconds as int,
        )
    }

    /// Whether the context is well formed.
    pub fn is_valid(&self) -> (valid: bool)
        ensures
            valid == self.wf(),
    {
        self.prev_time.is_valid() && self.next_time.is_valid() && self.diff_prev_seconds >= 0
            && self.diff_next_seconds >= 0
    }

    /// The context as text: each side's term with its instant and its
    /// distance in whole days and hours.
    pub fn to_string(&self) -> (text: String)
        requires
            self.wf(),
        ensures
            text@ == self.text(),
    {
        let mut text = side_string(
            "前气: ",
            self.prev_name.as_str(),
            &self.prev_time,
            self.diff_prev_seconds,
        );
        let next = side_string(
            "后气: ",
            self.next_name.as_str(),
            &self.next_time,
            self.diff_next_seconds,
        );
        text.append(", ");
        text.append(next.as_str());
        text
    }
}

/// One side of a context as text.
fn side_string(label: &str, name: &str, time: &Moment, seconds: i64) -> (text: String)
    requires
        time.wf(),
        seconds >= 0,
    ensures
        text@ == side_text(label@, name@, *time, seconds as int),
{
    let (days, hours) = days_and_hours(seconds);
    let mut text = String::from_str(label);
    text.append(name);
    text.append(" (");
    text.append(format_timestamp(time).as_str());
    text.append(", 距今 ");
    text.append(decimal_string(days as u64).as_str());
    text.append("天");
    text.append(decimal_string(hours as u64).as_str());
    text.append("小时");
    text.append(")");
    text
}

/// The terms of `year`, or none where the table has no record of it.
pub open spec fn terms_of_year(table: Seq<ParsedYearData>, year: int) -> Seq<ParsedJieQi> {
    match record_at(table, year) {
        Some(record) => record.jieqi@,
        None => Seq::empty(),
    }
}

/// The terms of the year before `year`, of `year` and of the year after
/// it, in that order.
pub open spec fn window_terms(table: Seq<ParsedYearData>, year: int) -> Seq<ParsedJieQi> {
    terms_of_year(table, year - 1) + terms_of_year(table, year) + terms_of_year(table, year + 1)
}

/// `term` lies at or before `target`, and is a month boundary where only
/// those are asked for.
pub open spec fn is_candidate(term: ParsedJieQi, target: Moment, jie_only: bool) -> bool {
    term.time.at_or_before(target) && (jie_only ==> month_index_of_name(term.name@).is_some())
}

/// Some term of `terms` is a candidate.
pub open spec fn has_candidate(terms: Seq<ParsedJieQi>, target: Moment, jie_only: bool) -> bool {
    exists|j: int| 0 <= j < terms.len() && is_candidate(#[trigger] terms[j], target, jie_only)
}

/// Some term of `terms` lies after `target`.
pub open spec fn has_later(terms: Seq<ParsedJieQi>, target: Moment) -> bool {
    exists|j: int| 0 <= j < terms.len() && target.before((#[trigger] terms[j]).time)
}

/// Term `i` is the candidate with the latest instant, and the first of
/// the candidates that share that instant.
pub open spec fn is_latest_candidate(
    terms: Seq<ParsedJieQi>,
    target: Moment,
    jie_only: bool,
    i: int,
) -> bool {
    &&& 0 <= i < terms.len()
    &&& is_candidate(terms[i], target, jie_only)
    &&& forall|j: int|
        0 <= j < terms.len() && is_candidate(#[trigger] terms[j], target, jie_only)
            ==> terms[j].time.at_or_before(terms[i].time)
    &&& forall|j: int|
        0 <= j < i && is_candidate(#[trigger] terms[j], target, jie_only) ==> terms[j].time.before(
            terms[i].time,
        )
}

/// Term `i` is the term after `target` with the earliest instant, and the
/// first of the terms that share that instant.
pub open spec fn is_earliest_later(terms: Seq<ParsedJieQi>, target: Moment, i: int) -> bool {
    &&& 0 <= i < terms.len()
    &&& target.before(terms[i].time)
    &&& forall|j: int|
        0 <= j < terms.len() && target.before((#[trigger] terms[j]).time)
            ==> terms[i].time.at_or_before(terms[j].time)
    &&& forall|j: int|
        0 <= j < i && target.before((#[trigger] terms[j]).time) ==> terms[i].time.before(
            terms[j].time,
        )
}

/// Two terms carry the same name and the same instant.
pub open spec fn same_term(x: ParsedJieQi, y: ParsedJieQi) -> bool {
    x.name@ == y.name@ && x.time == y.time
}

/// `term` occurs in `terms`.
pub open spec fn occurs_in(term: ParsedJieQi, terms: Seq<ParsedJieQi>) -> bool {
    exists|k: int| 0 <= k < terms.len() && same_term(term, #[trigger] terms[k])
}

/// Two lists hold the same terms, in whatever order and however often.
pub open spec fn same_terms(a: Seq<ParsedJieQi>, b: Seq<ParsedJieQi>) -> bool {
    &&& forall|i: int| 0 <= i < a.len() ==> occurs_in(#[trigger] a[i], b)
    &&& forall|k: int| 0 <= k < b.len() ==> occurs_in(#[trigger] b[k], a)
}

/// No two candidates of `terms` with different names share an instant.
pub open spec fn candidates_are_apart(
    terms: Seq<ParsedJieQi>,
    target: Moment,
    jie_only: bool,
) -> bool {
    forall|p: int, q: int|
        0 <= p < terms.len() && 0 <= q < terms.len() && is_candidate(
            #[trigger] terms[p],
            target,
            jie_only,
        ) && is_candidate(#[trigger] terms[q], target, jie_only) && terms[p].time == terms[q].time
            ==> terms[p].name@ == terms[q].name@
}

/// Which candidate is the latest does not depend on the order in which
/// the terms are scanned: two lists holding the same terms select the same
/// instant, and the same name where no two candidates share an instant.
pub proof fn lemma_latest_is_order_independent(
    a: Seq<ParsedJieQi>,
    b: Seq<ParsedJieQi>,
    target: Moment,
    jie_only: bool,
    i: int,
    k: int,
)
    requires
        same_terms(a, b),
        is_latest_candidate(a, target, jie_only, i),
        is_latest_candidate(b, target, jie_only, k),
    ensures
        a[i].time == b[k].time,
        candidates_are_apart(a, target, jie_only) ==> same_term(a[i], b[k]),
{
    assert(occurs_in(a[i], b));
    let k2 = choose|k2: int| 0 <= k2 < b.len() && same_term(a[i], #[trigger] b[k2]);
    assert(is_candidate(b[k2], target, jie_only));
    assert(occurs_in(b[k], a));
    let i2 = choose|i2: int| 0 <= i2 < a.len() && same_term(b[k], #[trigger] a[i2]);
    assert(is_candidate(a[i2], target, jie_only));
    assert(a[i].time == b[k].time);
}

/// A copy of a term.
fn clone_term(term: &ParsedJieQi) -> (copy: ParsedJieQi)
    ensures
        copy == *term,
{
    ParsedJieQi { name: term.name.clone(), time: term.time }
}

/// Appends copies of `terms` to `out`.
fn append_terms(out: &mut Vec<ParsedJieQi>, terms: &Vec<ParsedJieQi>)
    ensures
        final(out)@ == old(out)@ + terms@,
{
    let mut k: usize = 0;
    while k < terms.len()
        invariant
            k <= terms@.len(),
            out@ == old(out)@ + terms@.subrange(0, k as int),
        decreases terms@.len() - k,
    {
        out.push(clone_term(&terms[k]));
        assert(out@ =~= old(out)@ + terms@.subrange(0, k as int + 1));
        k += 1;
    }
    assert(terms@.subrange(0, k as int) =~= terms@);
}

/// The terms of the three years around `year` that the table holds.
pub fn collect_window(table: &YearTable, year: i32) -> (terms: Vec<ParsedJieQi>)
    requires
        table.wf(),
        i32::MIN < year < i32::MAX,
    ensures
        terms@ == window_terms(table@, year as int),
        forall|j: int| 0 <= j < terms@.len() ==> (#[trigger] terms@[j]).time.wf(),
{
    let mut terms: Vec<ParsedJieQi> = Vec::new();
    if let Some(record) = table.parsed_year_data(year - 1) {
        append_terms(&mut terms, &record.jieqi);
    }
    assert(terms@ =~= terms_of_year(table@, year as int - 1));
    if let Some(record) = table.parsed_year_data(year) {
        append_terms(&mut terms, &record.jieqi);
    }
    if let Some(record) = table.parsed_year_data(year + 1) {
        append_terms(&mut terms, &record.jieqi);
    }
    assert(terms@ =~= window_terms(table@, year as int));
    terms
}

/// The latest term at or before `target`, among the month boundaries
/// only where `jie_only` is set; nothing where no term qualifies.
pub fn select_latest(terms: &Vec<ParsedJieQi>, target: &Moment, jie_only: bool) -> (found: Option<
    usize,
>)
    ensures
        found.is_some() == has_candidate(terms@, *target, jie_only),
        found matches Some(i) ==> is_latest_candidate(terms@, *target, jie_only, i as int),
{
    let mut best: Option<usize> = None;
    let mut i: usize = 0;
    while i < terms.len()
        invariant
            i <= terms@.len(),
            best.is_none() ==> forall|j: int|
                0 <= j < i ==> !is_candidate(#[trigger] terms@[j], *target, jie_only),
            best matches Some(b) ==> {
                &&& b < i
                &&& is_candidate(terms@[b as int], *target, jie_only)
                &&& forall|j: int|
                    0 <= j < i && is_candidate(#[trigger] terms@[j], *target, jie_only)
                        ==> terms@[j].time.at_or_before(terms@[b as int].time)
                &&& forall|j: int|
                    0 <= j < b && is_candidate(#[trigger] terms@[j], *target, jie_only)
                        ==> terms@[j].time.before(terms@[b as int].time)
            },
        decreases terms@.len() - i,
    {
        let term = &terms[i];
        let qualifies = term.time.is_at_or_before(target) && (!jie_only || month_index_from_jie(
            term.name.as_str(),
        ).is_some());
        if qualifies {
            let later = match best {
                Some(b) => terms[b].time.is_before(&term.time),
                None => true,
            };
            if later {
                best = Some(i);
            }
        }
        i += 1;
    }
    best
}

/// The earliest term after `target`; nothing where no term lies after it.
pub fn select_earliest_later(terms: &Vec<ParsedJieQi>, target: &Moment) -> (found: Option<usize>)
    ensures
        found.is_some() == has_later(terms@, *target),
        found matches Some(i) ==> is_earliest_later(terms@, *target, i as int),
{
    let mut best: Option<usize> = None;
    let mut i: usize = 0;
    while i < terms.len()
        invariant
            i <= terms@.len(),
            best.is_none() ==> forall|j: int|
                0 <= j < i ==> !target.before((#[trigger] terms@[j]).time),
            best matches Some(b) ==> {
                &&& b < i
                &&& target.before(terms@[b as int].time)
                &&& forall|j: int|
                    0 <= j < i && target.before((#[trigger] terms@[j]).time)
                        ==> terms@[b as int].time.at_or_before(terms@[j].time)
                &&& forall|j: int|
                    0 <= j < b && target.before((#[trigger] terms@[j]).time)
                        ==> terms@[b as int].time.before(terms@[j].time)
            },
        decreases terms@.len() - i,
    {
        let term = &terms[i];
        if target.is_before(&term.time) {
            let earlier = match best {
                Some(b) => term.time.is_before(&terms[b].time),
                None => true,
            };
            if earlier {
                best = Some(i);
            }
        }
        i += 1;
    }
    best
}

/// `context` is what the terms `terms` give around `target`: the latest
/// term at or before it, the earliest term after it, and the seconds from
/// the one to `target` and from `target` to the other.
pub open spec fn context_of(context: JieQiContext, terms: Seq<ParsedJieQi>, target: Moment) -> bool {
    &&& exists|i: int|
        is_latest_candidate(terms, target, false, i) && (#[trigger] terms[i]).name@
            == context.prev_name@ && terms[i].time == context.prev_time
    &&& exists|k: int|
        is_earliest_later(terms, target, k) && (#[trigger] terms[k]).name@ == context.next_name@
            && terms[k].time == context.next_time
    &&& context.diff_prev_seconds == target.abs_seconds() - context.prev_time.abs_seconds()
    &&& context.diff_next_seconds == context.next_time.abs_seconds() - target.abs_seconds()
}

/// The solar terms of `terms` on both sides of `target`; nothing where
/// either side has no term.
pub fn context_from(terms: &Vec<ParsedJieQi>, target: Moment) -> (context: Option<JieQiContext>)
    requires
        target.wf(),
        forall|j: int| 0 <= j < terms@.len() ==> (#[trigger] terms@[j]).time.wf(),
    ensures
        context.is_some() == (has_candidate(terms@, target, false) && has_later(terms@, target)),
        context matches Some(c) ==> {
            &&& context_of(c, terms@, target)
            &&& c.wf()
            &&& c.prev_time.at_or_before(target)
            &&& target.before(c.next_time)
            &&& c.diff_prev_seconds >= 0
            &&& c.diff_next_seconds > 0
        },
{
    let prev = select_latest(terms, &target, false);
    let next = select_earliest_later(terms, &target);
    match (prev, next) {
        (Some(i), Some(k)) => {
            let context = JieQiContext {
                prev_name: terms[i].name.clone(),
                prev_time: terms[i].time,
                next_name: terms[k].name.clone(),
                next_time: terms[k].time,
                diff_prev_seconds: seconds_from(&target, &terms[i].time),
                diff_next_seconds: seconds_from(&terms[k].time, &target),
            };
            assert(terms@[i as int].name@ == context.prev_name@);
            assert(terms@[k as int].name@ == context.next_name@);
            Some(context)
        },
        _ => None,
    }
}

/// The solar terms on both sides of `target_time` within the three years
/// around it; nothing where either side has no term, which happens only
/// where the table ends.
pub fn get_jieqi_context(table: &YearTable, target_time: Moment) -> (context: Option<JieQiContext>)
    requires
        table.wf(),
        target_time.wf(),
    ensures
        context.is_some() == (has_candidate(
            window_terms(table@, target_time.year as int),
            target_time,
            false,
        ) && has_later(window_terms(table@, target_time.year as int), target_time)),
        context matches Some(c) ==> {
            &&& context_of(c, window_terms(table@, target_time.year as int), target_time)
            &&& c.wf()
            &&& c.prev_time.at_or_before(target_time)
            &&& target_time.before(c.next_time)
            &&& c.diff_prev_seconds >= 0
            &&& c.diff_next_seconds > 0
        },
{
    let terms = collect_window(table, target_time.year);
    context_from(&terms, target_time)
}

/// The whole days in a span of seconds and the whole hours left over.
pub fn days_and_hours(seconds: i64) -> (parts: (i64, i64))
    requires
        seconds >= 0,
    ensures
        parts.0 == seconds as int / 86400,
        parts.1 == (seconds as int % 86400) / 3600,
        0 <= parts.1 < 24,
{
    (seconds / 86400, (seconds % 86400) / 3600)
}

} // verus!
