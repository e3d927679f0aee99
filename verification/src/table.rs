//! The year table: for each supported Gregorian year the start-of-spring
//! instant, the lunar new year date and the instants of the 24 solar terms,
//! loaded from rows of text.

use crate::moment::{moment_of_text, parse_timestamp, Moment};
use vstd::prelude::*;
use vstd::string::*;

verus! {

/// The first Gregorian year the table covers.
pub const MIN_SUPPORTED_YEAR: i32 = 1900;

/// The last Gregorian year the table covers.
pub const MAX_SUPPORTED_YEAR: i32 = 2099;

/// The number of solar terms of a year.
pub const TERMS_PER_YEAR: usize = 24;

/// A solar term as the dataset gives it: a name and a timestamp text.
#[derive(Debug)]
pub struct RawJieQi {
    pub name: String,
    pub time: String,
}

/// A year as the dataset gives it.
#[derive(Debug)]
pub struct RawYearData {
    pub year: i32,
    pub lunar_new_year: String,
    pub lichun_time: String,
    pub jieqi: Vec<RawJieQi>,
}

/// A solar term: its canonical name and its instant.
#[derive(Debug)]
pub struct ParsedJieQi {
    pub name: String,
    pub time: Moment,
}

/// A year of the table: the start-of-spring instant, the lunar new year
/// date as the dataset wrote it, and the year's 24 solar terms.
#[derive(Debug)]
pub struct ParsedYearData {
    pub year: i32,
    pub lunar_new_year: String,
    pub lichun_time: Moment,
    pub jieqi: Vec<ParsedJieQi>,
}

/// The loaded table, one record per year from `MIN_SUPPORTED_YEAR` on.
#[derive(Debug)]
pub struct YearTable {
    records: Vec<ParsedYearData>,
}

/// The name under which some rows carry the December month boundary.
pub open spec fn daxue_alias() -> Seq<char> {
    seq!['D', 'A', '_', 'X', 'U', 'E']
}

/// The canonical name of the December month boundary.
pub open spec fn daxue_name() -> Seq<char> {
    seq!['大', '雪']
}

/// The canonical form of a term name: the alias becomes the December
/// boundary's name, every other name stays.
pub open spec fn normalized_name(name: Seq<char>) -> Seq<char> {
    if name == daxue_alias() {
        daxue_name()
    } else {
        name
    }
}

/// The month ordinal of a month-boundary term, start of spring being 0;
/// nothing for a name that is no month boundary.
pub open spec fn month_index_of_name(name: Seq<char>) -> Option<int> {
    if name == seq!['立', '春'] {
        Some(0)
    } else if name == seq!['惊', '蛰'] {
        Some(1)
    } else if name == seq!['清', '明'] {
        Some(2)
    } else if name == seq!['立', '夏'] {
        Some(3)
    } else if name == seq!['芒', '种'] {
        Some(4)
    } else if name == seq!['小', '暑'] {
        Some(5)
    } else if name == seq!['立', '秋'] {
        Some(6)
    } else if name == seq!['白', '露'] {
        Some(7)
    } else if name == seq!['寒', '露'] {
        Some(8)
    } else if name == seq!['立', '冬'] {
        Some(9)
    } else if name == seq!['大', '雪'] {
        Some(10)
    } else if name == seq!['小', '寒'] {
        Some(11)
    } else {
        None
    }
}

/// The alias and the canonical name of the December boundary both
/// normalise to month ordinal 10, and every month ordinal is below twelve.
pub proof fn lemma_december_boundary(name: Seq<char>)
    ensures
        month_index_of_name(normalized_name(daxue_alias())) == Some(10int),
        month_index_of_name(normalized_name(daxue_name())) == Some(10int),
        month_index_of_name(name) matches Some(m) ==> 0 <= m < 12,
{
    assert(daxue_alias().len() == 6);
    assert(daxue_name().len() == 2);
}

/// The canonical form of a term name.
pub fn normalize_jie_name<'a>(name: &'a str) -> (canonical: &'a str)
    ensures
        canonical@ == normalized_name(name@),
{
    proof {
        reveal_strlit("大雪");
    }
    if name.unicode_len() == 6 && name.get_char(0) == 'D' && name.get_char(1) == 'A'
        && name.get_char(2) == '_' && name.get_char(3) == 'X' && name.get_char(4) == 'U'
        && name.get_char(5) == 'E' {
        assert(name@ =~= daxue_alias());
        assert("大雪"@ =~= daxue_name());
        "大雪"
    } else {
        name
    }
}

/// The month ordinal of the month-boundary term called `name`.
pub fn month_index_from_jie(name: &str) -> (index: Option<usize>)
    ensures
        index.is_some() == month_index_of_name(name@).is_some(),
        index matches Some(m) ==> month_index_of_name(name@) == Some(m as int) && m < 12,
{
    if name.unicode_len() != 2 {
        return None;
    }
    let a = name.get_char(0);
    let b = name.get_char(1);
    assert(name@ =~= seq![a, b]);
    if a == '立' && b == '春' {
        Some(0)
    } else if a == '惊' && b == '蛰' {
        Some(1)
    } else if a == '清' && b == '明' {
        Some(2)
    } else if a == '立' && b == '夏' {
        Some(3)
    } else if a == '芒' && b == '种' {
        Some(4)
    } else if a == '小' && b == '暑' {
        Some(5)
    } else if a == '立' && b == '秋' {
        Some(6)
    } else if a == '白' && b == '露' {
        Some(7)
    } else if a == '寒' && b == '露' {
        Some(8)
    } else if a == '立' && b == '冬' {
        Some(9)
    } else if a == '大' && b == '雪' {
        Some(10)
    } else if a == '小' && b == '寒' {
        Some(11)
    } else {
        None
    }
}

impl ParsedYearData {
    /// The record holds 24 terms, and every instant in it is well formed.
    pub open spec fn wf(self) -> bool {
        &&& self.jieqi@.len() == TERMS_PER_YEAR
        &&& self.lichun_time.wf()
        &&& forall|k: int| 0 <= k < self.jieqi@.len() ==> (#[trigger] self.jieqi@[k]).time.wf()
    }
}

/// The timestamp of a raw term parses.
pub open spec fn term_loads(raw: RawJieQi) -> bool {
    moment_of_text(raw.time@).is_some()
}

/// `term` is what `raw` loads as: the canonical name and the parsed instant.
pub open spec fn term_loaded_from(term: ParsedJieQi, raw: RawJieQi) -> bool {
    &&& term.name@ == normalized_name(raw.name@)
    &&& Some(term.time) == moment_of_text(raw.time@)
}

/// The row parses throughout and holds 24 terms.
pub open spec fn year_loads(row: RawYearData) -> bool {
    &&& moment_of_text(row.lichun_time@).is_some()
    &&& row.jieqi@.len() == TERMS_PER_YEAR
    &&& forall|k: int| 0 <= k < row.jieqi@.len() ==> term_loads(#[trigger] row.jieqi@[k])
}

/// `record` is what `row` loads as.
pub open spec fn year_loaded_from(record: ParsedYearData, row: RawYearData) -> bool {
    &&& record.year == row.year
    &&& record.lunar_new_year@ == row.lunar_new_year@
    &&& Some(record.lichun_time) == moment_of_text(row.lichun_time@)
    &&& record.jieqi@.len() == row.jieqi@.len()
    &&& forall|k: int|
        0 <= k < record.jieqi@.len() ==> term_loaded_from(
            #[trigger] record.jieqi@[k],
            row.jieqi@[k],
        )
}

/// Every row loads, and row `i` is the row of year `MIN_SUPPORTED_YEAR + i`,
/// which is a supported year.
pub open spec fn table_loads(rows: Seq<RawYearData>) -> bool {
    forall|i: int|
        0 <= i < rows.len() ==> {
            &&& year_loads(#[trigger] rows[i])
            &&& rows[i].year == MIN_SUPPORTED_YEAR + i
            &&& rows[i].year <= MAX_SUPPORTED_YEAR
        }
}

/// The record of `year` in a table, if the year is supported and the table
/// reaches it.
pub open spec fn record_at(table: Seq<ParsedYearData>, year: int) -> Option<ParsedYearData> {
    if MIN_SUPPORTED_YEAR <= year <= MAX_SUPPORTED_YEAR && year - MIN_SUPPORTED_YEAR < table.len() {
        Some(table[year - MIN_SUPPORTED_YEAR])
    } else {
        None
    }
}

/// Loads one term from a name and the outcome of parsing its timestamp.
pub fn make_term(name: &str, time: Option<Moment>) -> (term: Option<ParsedJieQi>)
    ensures
        term.is_some() == time.is_some(),
        term matches Some(t) ==> t.name@ == normalized_name(name@) && Some(t.time) == time,
{
    match time {
        Some(time) => Some(ParsedJieQi { name: String::from_str(normalize_jie_name(name)), time }),
        None => None,
    }
}

/// Loads one term; fails where its timestamp does not parse.
pub fn load_term(raw: &RawJieQi) -> (term: Option<ParsedJieQi>)
    ensures
        term.is_some() == term_loads(*raw),
        term matches Some(t) ==> term_loaded_from(t, *raw) && t.time.wf(),
{
    make_term(raw.name.as_str(), parse_timestamp(raw.time.as_str()))
}

/// Loads one year; fails where a timestamp does not parse or the row does
/// not hold 24 terms.
pub fn load_year(row: &RawYearData) -> (record: Option<ParsedYearData>)
    ensures
        record.is_some() == year_loads(*row),
        record matches Some(r) ==> year_loaded_from(r, *row) && r.wf(),
{
    let lichun_time = match parse_timestamp(row.lichun_time.as_str()) {
        Some(t) => t,
        None => {
            return None;
        },
    };
    let mut jieqi: Vec<ParsedJieQi> = Vec::new();
    let mut k: usize = 0;
    while k < row.jieqi.len()
        invariant
            k <= row.jieqi@.len(),
            jieqi@.len() == k,
            forall|j: int| 0 <= j < k ==> term_loads(#[trigger] row.jieqi@[j]),
            forall|j: int|
                0 <= j < k ==> term_loaded_from(#[trigger] jieqi@[j], row.jieqi@[j])
                    && jieqi@[j].time.wf(),
        decreases row.jieqi@.len() - k,
    {
        match load_term(&row.jieqi[k]) {
            Some(term) => {
                jieqi.push(term);
            },
            None => {
                return None;
            },
        }
        k += 1;
    }
    if jieqi.len() != TERMS_PER_YEAR {
        return None;
    }
    Some(
        ParsedYearData {
            year: row.year,
            lunar_new_year: row.lunar_new_year.clone(),
            lichun_time,
            jieqi,
        },
    )
}

impl YearTable {
    /// The records in year order.
    pub closed spec fn view(self) -> Seq<ParsedYearData> {
        self.records@
    }

    /// Record `i` is the well-formed record of year `MIN_SUPPORTED_YEAR + i`,
    /// and no record lies beyond `MAX_SUPPORTED_YEAR`.
    pub open spec fn wf(self) -> bool {
        &&& self@.len() <= MAX_SUPPORTED_YEAR - MIN_SUPPORTED_YEAR + 1
        &&& forall|i: int|
            0 <= i < self@.len() ==> (#[trigger] self@[i]).wf() && self@[i].year
                == MIN_SUPPORTED_YEAR + i
    }

    /// Loads the whole table, or nothing: one timestamp that does not
    /// parse, one row without 24 terms or one row out of its year's place
    /// fails the table.
    pub fn build(rows: &Vec<RawYearData>) -> (table: Option<YearTable>)
        ensures
            table.is_some() == table_loads(rows@),
            table matches Some(t) ==> {
                &&& t.wf()
                &&& t@.len() == rows@.len()
                &&& forall|i: int|
                    0 <= i < rows@.len() ==> year_loaded_from(#[trigger] t@[i], rows@[i])
            },
    {
        let mut records: Vec<ParsedYearData> = Vec::new();
        let mut i: usize = 0;
        while i < rows.len()
            invariant
                i <= rows@.len(),
                i <= MAX_SUPPORTED_YEAR - MIN_SUPPORTED_YEAR + 1,
                records@.len() == i,
                forall|j: int|
                    0 <= j < i ==> {
                        &&& year_loads(#[trigger] rows@[j])
                        &&& rows@[j].year == MIN_SUPPORTED_YEAR + j
                        &&& rows@[j].year <= MAX_SUPPORTED_YEAR
                    },
                forall|j: int|
                    0 <= j < i ==> {
                        &&& year_loaded_from(#[trigger] records@[j], rows@[j])
                        &&& records@[j].wf()
                        &&& records@[j].year == MIN_SUPPORTED_YEAR + j
                    },
            decreases rows@.len() - i,
        {
            let row = &rows[i];
            if row.year > MAX_SUPPORTED_YEAR || row.year < MIN_SUPPORTED_YEAR || (row.year
                - MIN_SUPPORTED_YEAR) as usize != i {
                return None;
            }
            match load_year(row) {
                Some(record) => {
                    records.push(record);
                },
                None => {
                    return None;
                },
            }
            i += 1;
        }
        Some(YearTable { records })
    }

    /// The number of years loaded.
    pub fn len(&self) -> (n: usize)
        ensures
            n == self@.len(),
    {
        self.records.len()
    }

    /// The record of `year`; absent where the year is not supported or the
    /// table does not reach it.
    pub fn parsed_year_data(&self, year: i32) -> (record: Option<&ParsedYearData>)
        requires
            self.wf(),
        ensures
            record.is_some() == record_at(self@, year as int).is_some(),
            record matches Some(r) ==> Some(*r) == record_at(self@, year as int) && r.year == year
                && r.wf(),
    {
        if year < MIN_SUPPORTED_YEAR || year > MAX_SUPPORTED_YEAR {
            return None;
        }
        let idx: usize = (year - MIN_SUPPORTED_YEAR) as usize;
        if idx < self.records.len() {
            Some(&self.records[idx])
        } else {
            None
        }
    }
}

} // verus!
