use lunar_calendar::cycle::{branch_name, position_in_cycle, stem_branch_text, stem_name};
use lunar_calendar::{
    format_gz, get_cycle_index, get_nayin_by_index, get_nayin_by_year, get_stem_branch,
};

#[test]
fn cycle_index_of_known_years() {
    assert_eq!(get_cycle_index(1984), 0);
    assert_eq!(get_cycle_index(1985), 1);
    assert_eq!(get_cycle_index(2024), 40);
    assert_eq!(get_cycle_index(2023), 39);
    assert_eq!(get_cycle_index(1900), 36);
    assert_eq!(get_cycle_index(4), 0);
    assert_eq!(get_cycle_index(3), 59);
    assert_eq!(get_cycle_index(0), 56);
    assert_eq!(get_cycle_index(-56), 0);
    assert_eq!(get_cycle_index(i32::MIN), 48);
    assert_eq!(get_cycle_index(i32::MAX), 3);
}

#[test]
fn cycle_index_has_period_sixty() {
    for year in 1840..=2099 {
        assert_eq!(get_cycle_index(year), get_cycle_index(year + 60));
        assert!(get_cycle_index(year) < 60);
        assert_eq!(get_cycle_index(year + 1), (get_cycle_index(year) + 1) % 60);
    }
}

#[test]
fn stem_and_branch_of_each_position() {
    assert_eq!(get_stem_branch(0), Some(("甲", "子")));
    assert_eq!(get_stem_branch(1), Some(("乙", "丑")));
    assert_eq!(get_stem_branch(10), Some(("甲", "戌")));
    assert_eq!(get_stem_branch(26), Some(("庚", "寅")));
    assert_eq!(get_stem_branch(59), Some(("癸", "亥")));
    assert_eq!(get_stem_branch(60), None);
    assert_eq!(get_stem_branch(usize::MAX), None);
    let stems: Vec<&str> = (0..10).map(stem_name).collect();
    assert_eq!(stems.concat(), "甲乙丙丁戊己庚辛壬癸");
    let branches: Vec<&str> = (0..12).map(branch_name).collect();
    assert_eq!(branches.concat(), "子丑寅卯辰巳午未申酉戌亥");
}

#[test]
fn stem_branch_text_of_positions() {
    assert_eq!(format_gz(0), "甲子");
    assert_eq!(format_gz(1), "乙丑");
    assert_eq!(format_gz(10), "甲戌");
    assert_eq!(format_gz(40), "甲辰");
    assert_eq!(format_gz(59), "癸亥");
    assert_eq!(format_gz(60), "甲子");
    assert_eq!(format_gz(121), "乙丑");
    assert_eq!(stem_branch_text(6, 4), "庚辰");
    assert_eq!(format_gz(get_cycle_index(1985)), "乙丑");
    assert_eq!(format_gz(get_cycle_index(2024)), "甲辰");
}

#[test]
fn nayin_is_defined_exactly_below_sixty() {
    for index in 0..60 {
        assert!(get_nayin_by_index(index).is_some());
        assert_eq!(get_nayin_by_index(index), get_nayin_by_index(index ^ 1));
    }
    assert_eq!(get_nayin_by_index(60), None);
    assert_eq!(get_nayin_by_index(61), None);
    assert_eq!(get_nayin_by_index(usize::MAX), None);
}

#[test]
fn nayin_of_known_positions() {
    assert_eq!(get_nayin_by_index(0), Some("海中金"));
    assert_eq!(get_nayin_by_index(1), Some("海中金"));
    assert_eq!(get_nayin_by_index(2), Some("炉中火"));
    assert_eq!(get_nayin_by_index(10), Some("山头火"));
    assert_eq!(get_nayin_by_index(29), Some("长流水"));
    assert_eq!(get_nayin_by_index(40), Some("覆灯火"));
    assert_eq!(get_nayin_by_index(58), Some("大海水"));
    assert_eq!(get_nayin_by_index(59), Some("大海水"));
    assert_eq!(get_nayin_by_year(1984), "海中金");
    assert_eq!(get_nayin_by_year(1985), "海中金");
    assert_eq!(get_nayin_by_year(2024), "覆灯火");
    assert_eq!(get_nayin_by_year(2026), "天河水");
}

#[test]
fn positions_wrap_below_zero() {
    assert_eq!(position_in_cycle(0), 0);
    assert_eq!(position_in_cycle(59), 59);
    assert_eq!(position_in_cycle(60), 0);
    assert_eq!(position_in_cycle(-1), 59);
    assert_eq!(position_in_cycle(-60), 0);
    assert_eq!(position_in_cycle(-61), 59);
    assert_eq!(position_in_cycle(i64::MIN), 52);
    assert_eq!(position_in_cycle(i64::MAX), 7);
}
