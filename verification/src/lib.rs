//! Four Pillars (BaZi) stem-branch designations and solar-term lookup over a
//! year-indexed table of solar-term instants.

pub mod cycle;
pub mod decimal;
pub mod jieqi;
pub mod moment;
pub mod pillars;
pub mod table;

pub use cycle::{
    format_gz, get_cycle_index, get_nayin_by_index, get_nayin_by_year, get_stem_branch,
};
pub use jieqi::{get_jieqi_context, JieQiContext};
pub use moment::{parse_timestamp, Moment};
pub use pillars::{get_pillars, BaziPillars};
pub use table::{
    month_index_from_jie, normalize_jie_name, ParsedJieQi, ParsedYearData, RawJieQi, RawYearData,
    YearTable, MAX_SUPPORTED_YEAR, MIN_SUPPORTED_YEAR,
};
