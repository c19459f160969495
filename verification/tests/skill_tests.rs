use backend::models::common::Element;
use backend::models::skill::{Aura, AuraRow, AuraType, Category, Hissatsu, HissatsuRow};
use backend::routes::skills::{
    aura_query, aura_row_is_readable, hissatsu_query, hissatsu_row_is_readable, parse_aura_rows,
    parse_hissatsu_rows, AURA_SQL, HISSATSU_SQL,
};

fn skill_row(id: i32, name: &str) -> HissatsuRow {
    HissatsuRow {
        skill_id: Some(id),
        name: Some(name.to_string()),
        power: Some(40),
        element: Some(3),
        category: Some(1),
        growth_rate: Some(2),
        is_block: Some(false),
        is_longshot: Some(true),
        tp_consumption: Some(30),
        cooldown: Some(5),
    }
}

fn aura_row(id: i32, skill: HissatsuRow) -> AuraRow {
    AuraRow {
        aura_id: Some(id),
        aura_name: Some(format!("aura {}", id)),
        aura_type: Some(2),
        aura_element: Some(1),
        skill,
    }
}

#[test]
fn category_from_codes() {
    assert_eq!(Category::from(1), Category::SHOOT);
    assert_eq!(Category::from(2), Category::DRIBBLE);
    assert_eq!(Category::from(3), Category::DEFENSE);
    assert_eq!(Category::from(4), Category::GOALKEEPER);
}

#[test]
fn aura_type_from_codes() {
    assert_eq!(AuraType::from(0), AuraType::Keshin);
    assert_eq!(AuraType::from(1), AuraType::Armed);
    assert_eq!(AuraType::from(2), AuraType::MixiMax);
    assert_eq!(AuraType::from(3), AuraType::Totem);
    assert_eq!(AuraType::from(4), AuraType::BondTransform);
    assert_eq!(AuraType::from(5), AuraType::Awakening);
    assert_eq!(AuraType::from(6), AuraType::ModeChange);
    assert_eq!(AuraType::from(7), AuraType::AwakeningChange);
}

#[test]
fn skill_codes_read_back_to_the_same_value() {
    for c in [Category::SHOOT, Category::DRIBBLE, Category::DEFENSE, Category::GOALKEEPER] {
        assert_eq!(Category::from(c.code()), c);
    }
    for t in [
        AuraType::Keshin,
        AuraType::Armed,
        AuraType::MixiMax,
        AuraType::Totem,
        AuraType::BondTransform,
        AuraType::Awakening,
        AuraType::ModeChange,
        AuraType::AwakeningChange,
    ] {
        assert_eq!(AuraType::from(t.code()), t);
    }
}

#[test]
fn hissatsu_from_a_full_row() {
    let h = Hissatsu::parse(skill_row(7, "Fire Tornado")).unwrap();
    assert_eq!(
        h,
        Hissatsu {
            id: 7,
            name: "Fire Tornado".to_string(),
            power: 40,
            element: Element::FIRE,
            category: Category::SHOOT,
            growth_rate: 2,
            is_block: false,
            is_longshot: true,
            tp_consumption: 30,
            cooldown: 5,
        }
    );
}

#[test]
fn hissatsu_without_an_optional_column_is_none() {
    let mut row = skill_row(7, "x");
    row.cooldown = None;
    assert_eq!(Hissatsu::parse(row), None);
    let mut row = skill_row(7, "x");
    row.name = None;
    assert_eq!(Hissatsu::parse(row), None);
}

#[test]
fn hissatsu_row_without_id_needs_no_element() {
    let mut row = skill_row(7, "x");
    row.skill_id = None;
    row.element = None;
    row.category = Some(200);
    assert!(hissatsu_row_is_readable(&row));
    assert_eq!(Hissatsu::parse(row), None);
}

#[test]
fn hissatsu_row_readability() {
    assert!(hissatsu_row_is_readable(&skill_row(1, "a")));
    let mut row = skill_row(1, "a");
    row.category = Some(9);
    assert!(!hissatsu_row_is_readable(&row));
    let mut row = skill_row(1, "a");
    row.category = Some(0);
    assert!(!hissatsu_row_is_readable(&row));
    let mut row = skill_row(1, "a");
    row.element = None;
    assert!(!hissatsu_row_is_readable(&row));
}

#[test]
fn aura_with_its_special_move() {
    let a = Aura::parse(aura_row(3, skill_row(9, "Bond"))).unwrap();
    assert_eq!(a.id, 3);
    assert_eq!(a.name, "aura 3");
    assert_eq!(a.aura_type, AuraType::MixiMax);
    assert_eq!(a.element, Element::WIND);
    assert_eq!(a.hissatsu, Hissatsu::parse(skill_row(9, "Bond")));
    assert!(a.hissatsu.is_some());
}

#[test]
fn aura_with_skill_id_zero_grants_nothing() {
    let mut skill = skill_row(0, "none");
    skill.category = None;
    let row = aura_row(3, skill);
    assert!(aura_row_is_readable(&row));
    let a = Aura::parse(row).unwrap();
    assert_eq!(a.hissatsu, None);
}

#[test]
fn aura_without_skill_id_is_none() {
    let mut skill = skill_row(0, "none");
    skill.skill_id = None;
    assert_eq!(Aura::parse(aura_row(3, skill)), None);
}

#[test]
fn aura_whose_special_move_lacks_a_column_keeps_no_move() {
    let mut skill = skill_row(4, "x");
    skill.is_block = None;
    let a = Aura::parse(aura_row(3, skill)).unwrap();
    assert_eq!(a.hissatsu, None);
}

#[test]
fn aura_row_readability() {
    let mut row = aura_row(1, skill_row(2, "a"));
    row.aura_type = Some(8);
    assert!(!aura_row_is_readable(&row));
    let mut row = aura_row(1, skill_row(2, "a"));
    row.skill.category = Some(5);
    assert!(!aura_row_is_readable(&row));
    let mut row = aura_row(1, skill_row(0, "a"));
    row.skill.category = Some(5);
    assert!(aura_row_is_readable(&row));
    let mut row = aura_row(1, skill_row(2, "a"));
    row.aura_id = None;
    row.aura_element = None;
    assert!(aura_row_is_readable(&row));
}

#[test]
fn skill_lists_keep_order_and_drop_unreadable_rows() {
    let mut broken = skill_row(2, "b");
    broken.power = None;
    let skills = parse_hissatsu_rows(vec![skill_row(1, "a"), broken, skill_row(3, "c")]);
    let ids: Vec<i32> = skills.iter().map(|h| h.id).collect();
    assert_eq!(ids, vec![1, 3]);

    let mut no_name = aura_row(2, skill_row(0, "x"));
    no_name.aura_name = None;
    let auras = parse_aura_rows(vec![aura_row(5, skill_row(1, "a")), no_name, aura_row(6, skill_row(0, "b"))]);
    let ids: Vec<i32> = auras.iter().map(|a| a.id).collect();
    assert_eq!(ids, vec![5, 6]);
    assert!(parse_hissatsu_rows(Vec::new()).is_empty());
}

#[test]
fn skill_queries_have_their_fixed_text() {
    let q = hissatsu_query();
    assert_eq!(q.builder.sql(), HISSATSU_SQL);
    assert!(q.builder.sql().contains("FROM skills.hissatsu"));
    let q = aura_query();
    assert_eq!(q.builder.sql(), AURA_SQL);
    assert!(q.builder.sql().contains("LEFT JOIN skills.aura_hissatsu ah"));
}
