use backend::routes::characters::Language;
use backend::setup::{attach_language, connection_setup_statements, listen_address, ATTACH_SKILLS, LANGUAGES};

#[test]
fn attach_statement_of_a_language() {
    assert_eq!(
        attach_language("fr"),
        "ATTACH DATABASE 'databases/translations/fr.sqlite' AS fr"
    );
}

#[test]
fn connection_setup_attaches_every_language_then_skills() {
    let statements = connection_setup_statements();
    assert_eq!(statements.len(), 10);
    assert_eq!(statements[0], "ATTACH DATABASE 'databases/translations/de.sqlite' AS de");
    assert_eq!(
        statements[8],
        "ATTACH DATABASE 'databases/translations/zh_hant.sqlite' AS zh_hant"
    );
    assert_eq!(statements[9], ATTACH_SKILLS);
    assert_eq!(statements[9], "ATTACH DATABASE 'databases/skills.sqlite' AS skills");
}

#[test]
fn every_search_language_is_attached() {
    for l in [
        Language::DE,
        Language::EN,
        Language::ES,
        Language::FR,
        Language::IT,
        Language::JA,
        Language::PT,
        Language::ZH_HANS,
        Language::ZH_HANT,
    ] {
        assert!(LANGUAGES.contains(&l.to_sql()));
    }
}

#[test]
fn listen_addresses() {
    assert_eq!(listen_address(Some("8080".to_string())), "0.0.0.0:8080");
    assert_eq!(listen_address(None), "0.0.0.0:3000");
}
