use backend::translations::{text_table, Translation};

fn rows(items: &[(i32, &str)]) -> Vec<(i32, String)> {
    items.iter().map(|(id, s)| (*id, s.to_string())).collect()
}

#[test]
fn text_table_later_rows_replace_earlier() {
    let table = text_table(rows(&[(1, "a"), (2, "b"), (1, "c")]));
    assert_eq!(table.len(), 2);
    assert_eq!(table[&1], "c");
    assert_eq!(table[&2], "b");
    assert!(text_table(Vec::new()).is_empty());
}

#[test]
fn lookups() {
    let t = Translation::from_tables(
        rows(&[(1, "円堂守"), (2, "豪炎寺修也")]),
        rows(&[(1, "Endou Mamoru")]),
        rows(&[(7, "Goalkeeper and captain")]),
        rows(&[(3, "Inazuma Eleven GO")]),
    );
    assert_eq!(t.name(1).map(|s| s.as_str()), Some("円堂守"));
    assert_eq!(t.name(2).map(|s| s.as_str()), Some("豪炎寺修也"));
    assert_eq!(t.name(3), None);
    assert_eq!(t.name_roma(1), "Endou Mamoru");
    assert_eq!(t.description(7), "Goalkeeper and captain");
    assert_eq!(t.series(3), "Inazuma Eleven GO");
    assert!(t.skills.is_empty());
}

