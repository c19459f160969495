use backend::models::common::{Element, Position, Stats, StatsColumn, StatsColumns, Style};

fn all_columns() -> StatsColumns {
    StatsColumns {
        lvl50_kick: Some(101),
        lvl50_control: Some(102),
        lvl50_technique: Some(103),
        lvl50_pressure: Some(104),
        lvl50_physical: Some(105),
        lvl50_agility: Some(106),
        lvl50_intelligence: Some(107),
    }
}

#[test]
fn element_from_known_codes() {
    assert_eq!(Element::from(1), Element::WIND);
    assert_eq!(Element::from(2), Element::FOREST);
    assert_eq!(Element::from(3), Element::FIRE);
    assert_eq!(Element::from(4), Element::MOUNTAIN);
}

#[test]
fn element_from_other_codes_is_unknown() {
    assert_eq!(Element::from(0), Element::UNKNOWN);
    assert_eq!(Element::from(5), Element::UNKNOWN);
    assert_eq!(Element::from(-1), Element::UNKNOWN);
    assert_eq!(Element::from(i32::MAX), Element::UNKNOWN);
}

#[test]
fn position_from_codes() {
    assert_eq!(Position::from(1), Position::GK);
    assert_eq!(Position::from(2), Position::FW);
    assert_eq!(Position::from(3), Position::MF);
    assert_eq!(Position::from(4), Position::DF);
    assert_eq!(Position::from(0), Position::UNKNOWN);
    assert_eq!(Position::from(5), Position::UNKNOWN);
    assert_eq!(Position::from(i32::MIN), Position::UNKNOWN);
}

#[test]
fn style_from_codes() {
    assert_eq!(Style::from(0), Style::BREACH);
    assert_eq!(Style::from(1), Style::COUNTER);
    assert_eq!(Style::from(2), Style::BOND);
    assert_eq!(Style::from(3), Style::TENSION);
    assert_eq!(Style::from(4), Style::ROUGH);
    assert_eq!(Style::from(5), Style::JUSTICE);
    assert_eq!(Style::from(6), Style::UNKNOWN);
    assert_eq!(Style::from(-3), Style::UNKNOWN);
}

#[test]
fn stored_codes() {
    assert_eq!(Element::MOUNTAIN.code(), 4);
    assert_eq!(Element::UNKNOWN.code(), 5);
    assert_eq!(Position::DF.code(), 4);
    assert_eq!(Position::FW.code(), 2);
    assert_eq!(Style::BREACH.code(), 0);
    assert_eq!(Style::UNKNOWN.code(), 6);
}

#[test]
fn codes_read_back_to_the_same_value() {
    for e in [Element::WIND, Element::FOREST, Element::FIRE, Element::MOUNTAIN, Element::UNKNOWN] {
        assert_eq!(Element::from(e.code() as i32), e);
    }
    for p in [Position::GK, Position::DF, Position::MF, Position::FW, Position::UNKNOWN] {
        assert_eq!(Position::from(p.code() as i32), p);
    }
    for s in [
        Style::BREACH,
        Style::COUNTER,
        Style::BOND,
        Style::TENSION,
        Style::ROUGH,
        Style::JUSTICE,
        Style::UNKNOWN,
    ] {
        assert_eq!(Style::from(s.code() as i32), s);
    }
}

#[test]
fn stats_from_complete_columns() {
    let stats = Stats::try_from(all_columns()).unwrap();
    assert_eq!(
        stats,
        Stats {
            kick: 101,
            control: 102,
            technique: 103,
            pressure: 104,
            physical: 105,
            agility: 106,
            intelligence: 107,
        }
    );
}

#[test]
fn stats_report_each_missing_column() {
    let mut c = all_columns();
    c.lvl50_kick = None;
    assert_eq!(Stats::try_from(c), Err(StatsColumn::Kick));
    let mut c = all_columns();
    c.lvl50_control = None;
    assert_eq!(Stats::try_from(c), Err(StatsColumn::Control));
    let mut c = all_columns();
    c.lvl50_technique = None;
    assert_eq!(Stats::try_from(c), Err(StatsColumn::Technique));
    let mut c = all_columns();
    c.lvl50_pressure = None;
    assert_eq!(Stats::try_from(c), Err(StatsColumn::Pressure));
    let mut c = all_columns();
    c.lvl50_physical = None;
    assert_eq!(Stats::try_from(c), Err(StatsColumn::Physical));
    let mut c = all_columns();
    c.lvl50_agility = None;
    assert_eq!(Stats::try_from(c), Err(StatsColumn::Agility));
    let mut c = all_columns();
    c.lvl50_intelligence = None;
    assert_eq!(Stats::try_from(c), Err(StatsColumn::Intelligence));
}

#[test]
fn stats_report_the_first_missing_column() {
    let mut c = all_columns();
    c.lvl50_agility = None;
    c.lvl50_technique = None;
    assert_eq!(Stats::try_from(c), Err(StatsColumn::Technique));
}

#[test]
fn stats_keep_extreme_values() {
    let mut c = all_columns();
    c.lvl50_kick = Some(0);
    c.lvl50_intelligence = Some(u16::MAX);
    let stats = Stats::try_from(c).unwrap();
    assert_eq!(stats.kick, 0);
    assert_eq!(stats.intelligence, u16::MAX);
}
