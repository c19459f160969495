use backend::character::summary::{CharacterSummary as HeroSummary, HeroRow};
use backend::models::character_summary::{CharacterRow, CharacterSummary};
use backend::models::common::{Element, Position, Stats, StatsColumns, Style};
use backend::routes::characters::parse_summaries;
use backend::routes::heroes::{hero_row_is_complete, parse_hero_rows, HERO_SUMMARY_SQL};
use backend::translations::Translation;

fn columns(base: u16) -> StatsColumns {
    StatsColumns {
        lvl50_kick: Some(base),
        lvl50_control: Some(base + 1),
        lvl50_technique: Some(base + 2),
        lvl50_pressure: Some(base + 3),
        lvl50_physical: Some(base + 4),
        lvl50_agility: Some(base + 5),
        lvl50_intelligence: Some(base + 6),
    }
}

fn character_row(index: u16, name: &str) -> CharacterRow {
    CharacterRow {
        index_id: index,
        name: name.to_string(),
        element: 2,
        main_position: 2,
        style: 5,
        series_name: "Ares".to_string(),
        stats: columns(10),
    }
}

fn translation() -> Translation {
    Translation::from_tables(
        vec![(1, "Endou Mamoru".to_string()), (2, "Gouenji Shuuya".to_string())],
        vec![(1, "Mark Evans".to_string())],
        vec![(1, "Captain".to_string())],
        vec![(10, "Inazuma Eleven".to_string())],
    )
}

fn hero_row(index: u16, name_id: i32) -> HeroRow {
    HeroRow {
        index_id: index,
        name_id,
        element: Some(4),
        main_position: Some(1),
        style: Some(0),
        series_id: Some(10),
        stats: columns(50),
    }
}

#[test]
fn summary_from_a_row() {
    let s = CharacterSummary::parse(character_row(12, "Axel")).unwrap();
    assert_eq!(
        s,
        CharacterSummary {
            index: 12,
            name: "Axel".to_string(),
            element: Element::FOREST,
            main_positon: Position::FW,
            style: Style::JUSTICE,
            series: "Ares".to_string(),
            stats: Stats {
                kick: 10,
                control: 11,
                technique: 12,
                pressure: 13,
                physical: 14,
                agility: 15,
                intelligence: 16,
            },
        }
    );
}

#[test]
fn summary_without_a_statistic_is_none() {
    let mut row = character_row(1, "a");
    row.stats.lvl50_pressure = None;
    assert_eq!(CharacterSummary::parse(row), None);
}

#[test]
fn summary_with_unknown_codes() {
    let mut row = character_row(1, "a");
    row.element = 42;
    row.main_position = 0;
    row.style = 6;
    let s = CharacterSummary::parse(row).unwrap();
    assert_eq!(s.element, Element::UNKNOWN);
    assert_eq!(s.main_positon, Position::UNKNOWN);
    assert_eq!(s.style, Style::UNKNOWN);
}

#[test]
fn summaries_keep_order_and_drop_incomplete_rows() {
    let mut incomplete = character_row(2, "b");
    incomplete.stats.lvl50_kick = None;
    let rows = vec![character_row(3, "c"), incomplete, character_row(1, "a")];
    let summaries = parse_summaries(rows);
    let names: Vec<&str> = summaries.iter().map(|s| s.name.as_str()).collect();
    assert_eq!(names, vec!["c", "a"]);
    assert!(parse_summaries(Vec::new()).is_empty());
}

#[test]
fn hero_summary_named_through_translation() {
    let t = translation();
    let s = HeroSummary::parse(hero_row(5, 1), &t).unwrap();
    assert_eq!(s.index, 5);
    assert_eq!(s.name(), "Endou Mamoru");
    assert_eq!(s.series, "Inazuma Eleven");
    assert_eq!(s.element, Element::MOUNTAIN);
    assert_eq!(s.main_positon, Position::GK);
    assert_eq!(s.style, Style::BREACH);
    assert_eq!(s.stats.kick, 50);
    assert_eq!(s.stats.intelligence, 56);
}

#[test]
fn hero_without_translated_name_is_none() {
    let t = translation();
    let mut row = hero_row(5, 99);
    row.element = None;
    row.series_id = Some(12345);
    assert!(HeroSummary::parse(row, &t).is_none());
}

#[test]
fn hero_without_statistic_is_none() {
    let t = translation();
    let mut row = hero_row(5, 2);
    row.stats.lvl50_control = None;
    assert!(HeroSummary::parse(row, &t).is_none());
}

#[test]
fn hero_row_completeness() {
    let t = translation();
    assert!(hero_row_is_complete(&hero_row(1, 1), &t));
    assert!(!hero_row_is_complete(&hero_row(1, 3), &t));
    let mut row = hero_row(1, 1);
    row.series_id = Some(11);
    assert!(!hero_row_is_complete(&row, &t));
    let mut row = hero_row(1, 1);
    row.stats.lvl50_physical = None;
    assert!(!hero_row_is_complete(&row, &t));
}

#[test]
fn hero_list_in_order() {
    let t = translation();
    let summaries = parse_hero_rows(vec![hero_row(2, 2), hero_row(1, 1)], &t);
    let names: Vec<&str> = summaries.iter().map(|s| s.name()).collect();
    assert_eq!(names, vec!["Gouenji Shuuya", "Endou Mamoru"]);
}

#[test]
fn hero_query_selects_from_heroes() {
    assert!(HERO_SUMMARY_SQL.contains("FROM heroes"));
    assert!(!HERO_SUMMARY_SQL.contains('?'));
}
