//! The translated texts of one language: character names (native and
//! romanised), character descriptions and series names, keyed by id.

use std::collections::HashMap;
use vstd::prelude::*;

verus! {

broadcast use vstd::std_specs::hash::group_hash_axioms;

/// The texts of a language, each table keyed by the id that rows refer to.
pub struct Translation {
    pub character_names: HashMap<i32, String>,
    pub character_names_roma: HashMap<i32, String>,
    pub character_desc: HashMap<i32, String>,
    pub series_name: HashMap<i32, String>,
    pub skills: HashMap<i32, (String, String)>,
}

/// The table that `(id, text)` rows make, a later row for an id replacing
/// an earlier one.
pub open spec fn text_table_of_rows(rows: Seq<(i32, String)>) -> Map<i32, String>
    decreases rows.len(),
{
    if rows.len() == 0 {
        Map::empty()
    } else {
        text_table_of_rows(rows.drop_last()).insert(rows.last().0, rows.last().1)
    }
}

/// Collects the `(id, text)` rows of a text table into a map; a later row
/// for an id replaces an earlier one.
pub fn text_table(rows: Vec<(i32, String)>) -> (table: HashMap<i32, String>)
    ensures
        table@ == text_table_of_rows(rows@),
{
    let ghost all = rows@;
    let mut table: HashMap<i32, String> = HashMap::new();
    for row in it: rows.into_iter()
        invariant
            it.seq() == all,
            table@ == text_table_of_rows(all.take(it.index() as int)),
    {
        let ghost i = it.index();
        assert(all.take(i + 1).drop_last() =~= all.take(i as int));
        let (id, text) = row;
        table.insert(id, text);
    }
    assert(all.take(all.len() as int) =~= all);
    table
}

/// The query that reads every row of a text table.
pub fn select_all(table_name: &str) -> (sql: String)
    ensures
        sql@ == "SELECT * FROM "@ + table_name@,
{
    let mut sql = String::from_str("SELECT * FROM ");
    sql.append(table_name);
    sql
}

impl Translation {
    /// The texts made of the rows of the four text tables, with no skill
    /// texts.
    pub fn from_tables(
        names: Vec<(i32, String)>,
        names_roma: Vec<(i32, String)>,
        descriptions: Vec<(i32, String)>,
        series: Vec<(i32, String)>,
    ) -> (t: Translation)
        ensures
            t.character_names@ == text_table_of_rows(names@),
            t.character_names_roma@ == text_table_of_rows(names_roma@),
            t.character_desc@ == text_table_of_rows(descriptions@),
            t.series_name@ == text_table_of_rows(series@),
            t.skills@ == Map::<i32, (String, String)>::empty(),
    {
        Translation {
            character_names: text_table(names),
            character_names_roma: text_table(names_roma),
            character_desc: text_table(descriptions),
            series_name: text_table(series),
            skills: HashMap::new(),
        }
    }

    /// The name of a character, if the table has one for `name_id`.
    pub fn name(&self, name_id: i32) -> (n: Option<&String>)
        ensures
            match n {
                Some(s) => self.character_names@.contains_key(name_id) && *s
                    == self.character_names@[name_id],
                None => !self.character_names@.contains_key(name_id),
            },
    {
        self.character_names.get(&name_id)
    }

    /// The romanised name of a character; the id must be in the table.
    pub fn name_roma(&self, name_id: i32) -> (n: String)
        requires
            self.character_names_roma@.contains_key(name_id),
        ensures
            n == self.character_names_roma@[name_id],
    {
        self.character_names_roma.get(&name_id).unwrap().clone()
    }

    /// The description of a character; the id must be in the table.
    pub fn description(&self, description_id: i32) -> (d: String)
        requires
            self.character_desc@.contains_key(description_id),
        ensures
            d == self.character_desc@[description_id],
    {
        self.character_desc.get(&description_id).unwrap().clone()
    }

    /// The name of a series; the id must be in the table.
    pub fn series(&self, series_id: i32) -> (s: String)
        requires
            self.series_name@.contains_key(series_id),
        ensures
            s == self.series_name@[series_id],
    {
        self.series_name.get(&series_id).unwrap().clone()
    }
}

} // verus!
