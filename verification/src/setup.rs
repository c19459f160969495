//! The database connection's setup and the server's listening address.

use vstd::prelude::*;

verus! {

/// The languages whose text databases every connection attaches.
pub const LANGUAGES: [&'static str; 9] = ["de", "en", "es", "fr", "it", "ja", "pt", "zh_hans", "zh_hant"];

/// The statement that attaches the skill database.
pub const ATTACH_SKILLS: &'static str = "ATTACH DATABASE 'databases/skills.sqlite' AS skills";

/// The names of the attached language databases, in order.
pub open spec fn attached_languages() -> Seq<Seq<char>> {
    seq!["de"@, "en"@, "es"@, "fr"@, "it"@, "ja"@, "pt"@, "zh_hans"@, "zh_hant"@]
}

/// The statement that attaches the text database of `language` under the
/// language's name.
pub open spec fn attach_language_sql(language: Seq<char>) -> Seq<char> {
    "ATTACH DATABASE 'databases/translations/"@ + language + ".sqlite' AS "@ + language
}

/// The statement that attaches the text database of `language`.
pub fn attach_language(language: &str) -> (sql: String)
    ensures
        sql@ == attach_language_sql(language@),
{
    let mut sql = String::from_str("ATTACH DATABASE 'databases/translations/");
    sql.append(language);
    sql.append(".sqlite' AS ");
    sql.append(language);
    sql
}

/// The statements that every new connection runs, in order: one attaching
/// each language's text database, then one attaching the skill database.
pub fn connection_setup_statements() -> (statements: Vec<String>)
    ensures
        statements@.len() == attached_languages().len() + 1,
        forall|i: int|
            0 <= i < attached_languages().len() ==> #[trigger] statements@[i]@
                == attach_language_sql(attached_languages()[i]),
        statements@[attached_languages().len() as int]@ == ATTACH_SKILLS@,
{
    let mut statements: Vec<String> = Vec::new();
    let mut i: usize = 0;
    while i < 9
        invariant
            i <= 9,
            statements@.len() == i,
            forall|j: int|
                0 <= j < i ==> #[trigger] statements@[j]@ == attach_language_sql(
                    attached_languages()[j],
                ),
        decreases 9 - i,
    {
        let language = LANGUAGES[i];
        assert(language@ == attached_languages()[i as int]);
        statements.push(attach_language(language));
        i = i + 1;
    }
    statements.push(String::from_str(ATTACH_SKILLS));
    statements
}

/// The address the server listens on: all interfaces, on `port` where one
/// is given and on 3000 otherwise.
pub fn listen_address(port: Option<String>) -> (address: String)
    ensures
        address@ == "0.0.0.0:"@ + match port {
            Some(p) => p@,
            None => "3000"@,
        },
{
    let mut address = String::from_str("0.0.0.0:");
    match port {
        Some(p) => address.append(p.as_str()),
        None => address.append("3000"),
    }
    address
}

} // verus!
