//! The sexagenary cycle: sixty positions, each pairing one of ten heavenly
//! stems with one of twelve earthly branches, and each carrying a nayin tag.

use vstd::prelude::*;
use vstd::string::*;

verus! {

/// The ten heavenly stems in cycle order.
pub open spec fn stems() -> Seq<char> {
    seq!['甲', '乙', '丙', '丁', '戊', '己', '庚', '辛', '壬', '癸']
}

/// The twelve earthly branches in cycle order.
pub open spec fn branches() -> Seq<char> {
    seq!['子', '丑', '寅', '卯', '辰', '巳', '午', '未', '申', '酉', '戌', '亥']
}

/// Position of a Gregorian year in the sexagenary cycle; year 4 CE is
/// position 0, so 1984 is position 0 as well.
pub open spec fn cycle_index(year: int) -> int {
    (year - 4) % 60
}

/// The two-glyph text of a stem and a branch.
pub open spec fn gz_text(stem: int, branch: int) -> Seq<char> {
    seq![stems()[stem], branches()[branch]]
}

/// The two-glyph text of a cycle position, reduced modulo 60.
pub open spec fn cycle_text(index: int) -> Seq<char> {
    gz_text((index % 60) % 10, (index % 60) % 12)
}

/// The nayin tag of each cycle position, as a flat table of sixty entries.
pub open spec fn nayin_text(index: int) -> Seq<char> {
    if index == 0 || index == 1 {
        "海中金"@
    } else if index == 2 || index == 3 {
        "炉中火"@
    } else if index == 4 || index == 5 {
        "大林木"@
    } else if index == 6 || index == 7 {
        "路旁土"@
    } else if index == 8 || index == 9 {
        "剑锋金"@
    } else if index == 10 || index == 11 {
        "山头火"@
    } else if index == 12 || index == 13 {
        "涧下水"@
    } else if index == 14 || index == 15 {
        "城头土"@
    } else if index == 16 || index == 17 {
        "白蜡金"@
    } else if index == 18 || index == 19 {
        "杨柳木"@
    } else if index == 20 || index == 21 {
        "泉中水"@
    } else if index == 22 || index == 23 {
        "屋上土"@
    } else if index == 24 || index == 25 {
        "霹雳火"@
    } else if index == 26 || index == 27 {
        "松柏木"@
    } else if index == 28 || index == 29 {
        "长流水"@
    } else if index == 30 || index == 31 {
        "沙中金"@
    } else if index == 32 || index == 33 {
        "山下火"@
    } else if index == 34 || index == 35 {
        "平地木"@
    } else if index == 36 || index == 37 {
        "壁上土"@
    } else if index == 38 || index == 39 {
        "金箔金"@
    } else if index == 40 || index == 41 {
        "覆灯火"@
    } else if index == 42 || index == 43 {
        "天河水"@
    } else if index == 44 || index == 45 {
        "大驿土"@
    } else if index == 46 || index == 47 {
        "钗钏金"@
    } else if index == 48 || index == 49 {
        "桑柘木"@
    } else if index == 50 || index == 51 {
        "大溪水"@
    } else if index == 52 || index == 53 {
        "沙中土"@
    } else if index == 54 || index == 55 {
        "天上火"@
    } else if index == 56 || index == 57 {
        "石榴木"@
    } else {
        "大海水"@
    }
}

/// The cycle has period sixty in the year.
pub proof fn lemma_cycle_index_period(year: int)
    ensures
        cycle_index(year) == cycle_index(year + 60),
        0 <= cycle_index(year) < 60,
{
}

/// Position of `year` in the sexagenary cycle.
pub fn get_cycle_index(year: i32) -> (index: usize)
    ensures
        index as int == cycle_index(year as int),
        index < 60,
{
    position_in_cycle(year as i64 - 4)
}

/// `n` reduced into the sixty positions of the cycle by the floored
/// modulo, which stays non-negative for negative `n`.
pub fn position_in_cycle(n: i64) -> (index: usize)
    ensures
        index as int == n as int % 60,
        index < 60,
{
    match n.checked_rem_euclid(60) {
        Some(r) => r as usize,
        None => 0,
    }
}

/// The glyph of stem `i` as a one-character string.
pub fn stem_name(i: usize) -> (name: &'static str)
    requires
        i < 10,
    ensures
        name@ == seq![stems()[i as int]],
{
    proof {
        reveal_strlit("甲");
        reveal_strlit("乙");
        reveal_strlit("丙");
        reveal_strlit("丁");
        reveal_strlit("戊");
        reveal_strlit("己");
        reveal_strlit("庚");
        reveal_strlit("辛");
        reveal_strlit("壬");
        reveal_strlit("癸");
    }
    let name = match i {
        0 => "甲",
        1 => "乙",
        2 => "丙",
        3 => "丁",
        4 => "戊",
        5 => "己",
        6 => "庚",
        7 => "辛",
        8 => "壬",
        _ => "癸",
    };
    assert(name@ =~= seq![stems()[i as int]]);
    name
}

/// The glyph of branch `i` as a one-character string.
pub fn branch_name(i: usize) -> (name: &'static str)
    requires
        i < 12,
    ensures
        name@ == seq![branches()[i as int]],
{
    proof {
        reveal_strlit("子");
        reveal_strlit("丑");
        reveal_strlit("寅");
        reveal_strlit("卯");
        reveal_strlit("辰");
        reveal_strlit("巳");
        reveal_strlit("午");
        reveal_strlit("未");
        reveal_strlit("申");
        reveal_strlit("酉");
        reveal_strlit("戌");
        reveal_strlit("亥");
    }
    let name = match i {
        0 => "子",
        1 => "丑",
        2 => "寅",
        3 => "卯",
        4 => "辰",
        5 => "巳",
        6 => "午",
        7 => "未",
        8 => "申",
        9 => "酉",
        10 => "戌",
        _ => "亥",
    };
    assert(name@ =~= seq![branches()[i as int]]);
    name
}

/// The stem and branch of a cycle position; absent when the position is
/// not below sixty.
pub fn get_stem_branch(index: usize) -> (pair: Option<(&'static str, &'static str)>)
    ensures
        pair.is_some() <==> index < 60,
        pair matches Some((stem, branch)) ==> {
            &&& stem@ == seq![stems()[index as int % 10]]
            &&& branch@ == seq![branches()[index as int % 12]]
        },
{
    if index < 60 {
        Some((stem_name(index % 10), branch_name(index % 12)))
    } else {
        None
    }
}

/// The two-glyph text of stem `stem` and branch `branch`.
pub fn stem_branch_text(stem: usize, branch: usize) -> (text: String)
    requires
        stem < 10,
        branch < 12,
    ensures
        text@ == gz_text(stem as int, branch as int),
{
    let text = String::from_str(stem_name(stem)).concat(branch_name(branch));
    assert(text@ =~= gz_text(stem as int, branch as int));
    text
}

/// The two-glyph text of a cycle position; any index is reduced modulo 60.
pub fn format_gz(index: usize) -> (text: String)
    ensures
        text@ == cycle_text(index as int),
{
    let idx: usize = index % 60;
    stem_branch_text(idx % 10, idx % 12)
}

/// The nayin tag of a cycle position below sixty.
fn nayin_name(index: usize) -> (tag: &'static str)
    requires
        index < 60,
    ensures
        tag@ == nayin_text(index as int),
{
    match index / 2 {
        0 => "海中金",
        1 => "炉中火",
        2 => "大林木",
        3 => "路旁土",
        4 => "剑锋金",
        5 => "山头火",
        6 => "涧下水",
        7 => "城头土",
        8 => "白蜡金",
        9 => "杨柳木",
        10 => "泉中水",
        11 => "屋上土",
        12 => "霹雳火",
        13 => "松柏木",
        14 => "长流水",
        15 => "沙中金",
        16 => "山下火",
        17 => "平地木",
        18 => "壁上土",
        19 => "金箔金",
        20 => "覆灯火",
        21 => "天河水",
        22 => "大驿土",
        23 => "钗钏金",
        24 => "桑柘木",
        25 => "大溪水",
        26 => "沙中土",
        27 => "天上火",
        28 => "石榴木",
        _ => "大海水",
    }
}

/// The nayin tag of a cycle position; absent when the position is not
/// below sixty.
pub fn get_nayin_by_index(index: usize) -> (tag: Option<&'static str>)
    ensures
        tag.is_some() <==> index < 60,
        tag matches Some(t) ==> t@ == nayin_text(index as int),
{
    if index < 60 {
        Some(nayin_name(index))
    } else {
        None
    }
}

/// The nayin tag of the cycle position of `year`.
pub fn get_nayin_by_year(year: i32) -> (tag: &'static str)
    ensures
        tag@ == nayin_text(cycle_index(year as int)),
{
    nayin_name(get_cycle_index(year))
}

} // verus!
