use backend::models::common::{Element, Position, Style};
use backend::routes::characters::{
    build_inner_query, cache_key, calculate_hash, search_params_digest, summaries_after_fetch,
    summaries_after_lookup, summaries_cache_key, summaries_query, SummariesStep,
    INTERNAL_SERVER_ERROR,
    Language, OrderField, SearchParams, INNER_SELECT, OUTER_SELECT,
};
use backend::sql::SqlQuery;
use sqlx::Execute;
use std::collections::hash_map::DefaultHasher;
use std::hash::{Hash, Hasher};
use backend::models::character_summary::CharacterRow;
use backend::models::common::StatsColumns;

fn params() -> SearchParams {
    SearchParams {
        name: String::new(),
        element: Vec::new(),
        position: Vec::new(),
        style: Vec::new(),
        order: None,
        descending: false,
        language: Language::default(),
    }
}

fn inner_text(p: &SearchParams, table: &str) -> String {
    let q = summaries_query(p, table);
    let text = q.builder.sql().to_string();
    let start = OUTER_SELECT.len();
    let end = text.find("\n) i\nJOIN ").unwrap();
    text[start..end].to_string()
}

fn bound(q: &mut SqlQuery) -> String {
    let mut query = q.builder.build();
    let arguments = query.take_arguments().unwrap().unwrap();
    format!("{:?}", arguments)
}

#[test]
fn order_columns() {
    assert_eq!(OrderField::Kick.to_sql(), "lvl50_kick");
    assert_eq!(OrderField::Control.to_sql(), "lvl50_control");
    assert_eq!(OrderField::Technique.to_sql(), "lvl50_technique");
    assert_eq!(OrderField::Pressure.to_sql(), "lvl50_pressure");
    assert_eq!(OrderField::Physical.to_sql(), "lvl50_physical");
    assert_eq!(OrderField::Agility.to_sql(), "lvl50_agility");
    assert_eq!(OrderField::Intelligence.to_sql(), "lvl50_intelligence");
}

#[test]
fn language_schemas() {
    assert_eq!(Language::default(), Language::EN);
    assert_eq!(Language::DE.to_sql(), "de");
    assert_eq!(Language::EN.to_sql(), "en");
    assert_eq!(Language::ES.to_sql(), "es");
    assert_eq!(Language::FR.to_sql(), "fr");
    assert_eq!(Language::IT.to_sql(), "it");
    assert_eq!(Language::JA.to_sql(), "ja");
    assert_eq!(Language::PT.to_sql(), "pt");
    assert_eq!(Language::ZH_HANS.to_sql(), "zh_hans");
    assert_eq!(Language::ZH_HANT.to_sql(), "zh_hant");
}

#[test]
fn inner_query_without_filters() {
    let expected = format!("{}characters\nLIMIT 200", INNER_SELECT);
    assert_eq!(inner_text(&params(), "characters"), expected);
    assert!(INNER_SELECT.ends_with("lvl50_intelligence\n        FROM "));
}

#[test]
fn inner_query_with_element_filter() {
    let mut p = params();
    p.element = vec![Element::FIRE, Element::WIND];
    let expected = format!("{}heroes\nWHERE element IN (?,?)\nLIMIT 200", INNER_SELECT);
    assert_eq!(inner_text(&p, "heroes"), expected);
}

#[test]
fn position_filter_alone_opens_with_where() {
    let mut p = params();
    p.position = vec![Position::DF];
    let expected = format!("{}basaras\nWHERE main_position IN (?)\nLIMIT 200", INNER_SELECT);
    assert_eq!(inner_text(&p, "basaras"), expected);
}

#[test]
fn later_filters_open_with_and() {
    let mut p = params();
    p.element = vec![Element::MOUNTAIN];
    p.style = vec![Style::BOND, Style::ROUGH, Style::BREACH];
    let expected = format!(
        "{}characters\nWHERE element IN (?)\nAND style IN (?,?,?)\nLIMIT 200",
        INNER_SELECT
    );
    assert_eq!(inner_text(&p, "characters"), expected);

    let mut p = params();
    p.position = vec![Position::GK, Position::FW];
    p.style = vec![Style::JUSTICE];
    let expected = format!(
        "{}characters\nWHERE main_position IN (?,?)\nAND style IN (?)\nLIMIT 200",
        INNER_SELECT
    );
    assert_eq!(inner_text(&p, "characters"), expected);
}

#[test]
fn order_clause() {
    let mut p = params();
    p.order = Some(OrderField::Agility);
    let expected = format!("{}characters\nORDER BY lvl50_agility\nLIMIT 200", INNER_SELECT);
    assert_eq!(inner_text(&p, "characters"), expected);
    p.descending = true;
    let expected = format!("{}characters\nORDER BY lvl50_agility DESC\nLIMIT 200", INNER_SELECT);
    assert_eq!(inner_text(&p, "characters"), expected);
}

#[test]
fn descending_without_order_does_nothing() {
    let mut p = params();
    p.descending = true;
    let expected = format!("{}characters\nLIMIT 200", INNER_SELECT);
    assert_eq!(inner_text(&p, "characters"), expected);
}

#[test]
fn full_search_query_text_and_arguments() {
    let p = SearchParams {
        name: "ignored".to_string(),
        element: vec![Element::FOREST],
        position: vec![Position::MF, Position::DF],
        style: vec![Style::COUNTER],
        order: Some(OrderField::Kick),
        descending: true,
        language: Language::FR,
    };
    let mut q = summaries_query(&p, "characters");
    let expected = format!(
        "SELECT i.*, n.name, s.name AS series_name\n        FROM (\n        {}characters\nWHERE element IN (?)\nAND main_position IN (?,?)\nAND style IN (?)\nORDER BY lvl50_kick DESC\nLIMIT 200\n) i\nJOIN fr.character_names n\nON n.id = i.name_id\nJOIN fr.series_names s\nON s.id = i.series_id",
        INNER_SELECT
    );
    assert_eq!(q.builder.sql(), expected);
    assert_eq!(bound(&mut q), "SqliteArguments { values: [Int(2), Int(3), Int(4), Int(1)] }");
}

#[test]
fn placeholders_match_bound_values() {
    let p = SearchParams {
        name: String::new(),
        element: vec![Element::UNKNOWN, Element::FIRE, Element::WIND],
        position: vec![Position::UNKNOWN],
        style: vec![Style::UNKNOWN, Style::BREACH],
        order: Some(OrderField::Intelligence),
        descending: false,
        language: Language::ZH_HANT,
    };
    let mut q = summaries_query(&p, "heroes");
    let placeholders = q.builder.sql().matches('?').count();
    assert_eq!(placeholders, 6);
    assert_eq!(
        bound(&mut q),
        "SqliteArguments { values: [Int(5), Int(3), Int(1), Int(5), Int(6), Int(0)] }"
    );
}

#[test]
fn inner_query_appends_to_a_builder() {
    let mut q = summaries_query(&params(), "x");
    let before = q.builder.sql().to_string();
    let mut p = params();
    p.element = vec![Element::WIND];
    build_inner_query(&mut q, &p, "y");
    let expected = format!("{}{}y\nWHERE element IN (?)\nLIMIT 200", before, INNER_SELECT);
    assert_eq!(q.builder.sql(), expected);
    assert_eq!(bound(&mut q), "SqliteArguments { values: [Int(1)] }");
}

#[test]
fn cache_keys() {
    assert_eq!(cache_key("characters", 42), "characters:42");
    assert_eq!(cache_key("heroes", 0), "heroes:0");
    assert_eq!(cache_key("basaras", u64::MAX), "basaras:18446744073709551615");
    assert_eq!(cache_key("", 7), ":7");
    assert_eq!(cache_key("t", 10), "t:10");
    assert_eq!(cache_key("t", 1000000), "t:1000000");
    assert_eq!(cache_key("t", 9876543210), "t:9876543210");
}

#[test]
fn search_cache_key_is_table_colon_hash() {
    let p = params();
    let key = summaries_cache_key("characters", &p);
    assert_eq!(key, format!("characters:{}", search_params_digest(&p)));
}

#[test]
fn equal_searches_hash_equal_within_a_process() {
    let mut a = params();
    a.element = vec![Element::FIRE];
    let b = a.clone();
    assert_eq!(calculate_hash(&a), calculate_hash(&b));
    assert_eq!(summaries_cache_key("heroes", &a), summaries_cache_key("heroes", &b));
}

#[test]
fn different_tables_never_share_a_key() {
    let p = params();
    assert_ne!(summaries_cache_key("characters", &p), summaries_cache_key("heroes", &p));
    assert_ne!(cache_key("heroes", 1), cache_key("basaras", 1));
}

#[test]
fn query_text_ignores_filter_values_and_name() {
    let mut a = params();
    a.name = "Endou".to_string();
    a.element = vec![Element::FIRE];
    a.style = vec![Style::BOND, Style::TENSION];
    let mut b = params();
    b.name = "Gouenji".to_string();
    b.element = vec![Element::WIND];
    b.style = vec![Style::ROUGH, Style::BREACH];
    let mut qa = summaries_query(&a, "characters");
    let mut qb = summaries_query(&b, "characters");
    assert_eq!(qa.builder.sql(), qb.builder.sql());
    assert_eq!(bound(&mut qa), "SqliteArguments { values: [Int(3), Int(2), Int(3)] }");
    assert_eq!(bound(&mut qb), "SqliteArguments { values: [Int(1), Int(4), Int(0)] }");
}

#[test]
fn inner_query_selects_the_referenced_columns() {
    for o in [
        OrderField::Kick,
        OrderField::Control,
        OrderField::Technique,
        OrderField::Pressure,
        OrderField::Physical,
        OrderField::Agility,
        OrderField::Intelligence,
    ] {
        assert!(INNER_SELECT.contains(o.to_sql()));
    }
    assert!(INNER_SELECT.contains("name_id"));
    assert!(INNER_SELECT.contains("series_id"));
}

/// The default hasher's digest of a search's fields hashed as the derived
/// `Hash` of the server's parameters hashes them: strings by `write_str`,
/// lists with their length, enumerations by their stored code (a position
/// as a byte, the others as machine words), options by 0 or 1 then the
/// value.
fn derived_style_hash(
    name: &str,
    element: &[isize],
    position: &[u8],
    style: &[isize],
    order: Option<isize>,
    descending: bool,
    language: isize,
) -> u64 {
    let mut h = DefaultHasher::new();
    name.hash(&mut h);
    element.len().hash(&mut h);
    for e in element {
        e.hash(&mut h);
    }
    position.len().hash(&mut h);
    for p in position {
        p.hash(&mut h);
    }
    style.len().hash(&mut h);
    for s in style {
        s.hash(&mut h);
    }
    match order {
        Some(o) => {
            1isize.hash(&mut h);
            o.hash(&mut h);
        }
        None => 0isize.hash(&mut h),
    }
    descending.hash(&mut h);
    language.hash(&mut h);
    h.finish()
}

#[test]
fn search_digest_matches_the_derived_hash_of_the_parameters() {
    let p = SearchParams {
        name: "Endou".to_string(),
        element: vec![Element::FIRE, Element::WIND],
        position: vec![Position::DF, Position::GK],
        style: vec![Style::BREACH],
        order: Some(OrderField::Agility),
        descending: true,
        language: Language::FR,
    };
    if std::mem::size_of::<usize>() == 8 && 1u16.to_ne_bytes()[0] == 1 {
        let expected = derived_style_hash("Endou", &[3, 1], &[4, 1], &[0], Some(5), true, 3);
        assert_eq!(search_params_digest(&p), expected);
        assert_eq!(summaries_cache_key("characters", &p), format!("characters:{}", expected));
        let expected_default = derived_style_hash("", &[], &[], &[], None, false, 1);
        assert_eq!(search_params_digest(&params()), expected_default);
    }
}

#[test]
fn different_searches_have_different_digests() {
    let mut a = params();
    a.element = vec![Element::WIND];
    let mut b = params();
    b.position = vec![Position::GK];
    assert_ne!(search_params_digest(&a), search_params_digest(&b));
    let mut c = params();
    c.name = "x".to_string();
    assert_ne!(search_params_digest(&params()), search_params_digest(&c));
    let mut d = params();
    d.descending = true;
    assert_ne!(search_params_digest(&params()), search_params_digest(&d));
}

fn row(name: &str, complete: bool) -> CharacterRow {
    CharacterRow {
        index_id: 1,
        name: name.to_string(),
        element: 1,
        main_position: 1,
        style: 1,
        series_name: "s".to_string(),
        stats: StatsColumns {
            lvl50_kick: if complete { Some(1) } else { None },
            lvl50_control: Some(1),
            lvl50_technique: Some(1),
            lvl50_pressure: Some(1),
            lvl50_physical: Some(1),
            lvl50_agility: Some(1),
            lvl50_intelligence: Some(1),
        },
    }
}

#[test]
fn a_cache_hit_answers_and_a_miss_queries() {
    match summaries_after_lookup(Some(7u32), &params(), "characters") {
        SummariesStep::Answer(v) => assert_eq!(v, 7),
        SummariesStep::Query(_) => panic!("a hit must answer"),
    }
    match summaries_after_lookup(None::<u32>, &params(), "heroes") {
        SummariesStep::Query(q) => {
            assert_eq!(q.builder.sql(), summaries_query(&params(), "heroes").builder.sql())
        }
        SummariesStep::Answer(_) => panic!("a miss must query"),
    }
}

#[test]
fn fetched_rows_are_read_and_a_failure_is_a_server_error() {
    let answer = summaries_after_fetch(Some(vec![row("a", true), row("b", false)])).unwrap();
    let names: Vec<&str> = answer.iter().map(|s| s.name.as_str()).collect();
    assert_eq!(names, vec!["a"]);
    assert_eq!(summaries_after_fetch(None).err(), Some(INTERNAL_SERVER_ERROR));
    assert_eq!(INTERNAL_SERVER_ERROR, 500);
}
