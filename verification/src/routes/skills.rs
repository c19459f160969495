//! The skill lists: the queries that fetch special moves and auras, and the
//! reading of their rows.

use vstd::prelude::*;

use crate::models::skill::{
    aura_of_row, aura_row_readable, hissatsu_of_row, hissatsu_row_readable, Aura, AuraRow,
    Hissatsu, HissatsuRow,
};
use crate::sql::{new_query, query_arguments, query_open, query_text, SqlQuery};

verus! {

/// The SQL text that lists the special moves, named in English.
pub const HISSATSU_SQL: &'static str = "\nSELECT skill_id, n.name, power, element, category, growth_rate, is_block, is_longshot, tp_consumption, cooldown\nFROM skills.hissatsu\nJOIN en.skill_names n\nON n.id = skills.hissatsu.name_id\n";

/// The SQL text that lists the auras, named in English, each with the
/// special move it grants joined where there is one.
pub const AURA_SQL: &'static str = "\nSELECT \n    aura_id, \n    n1.name AS aura_name, \n    aura_type, \n    a.element AS aura_element, \n    ah.skill_id, \n    n2.name, \n    ah.power, \n    ah.element, \n    ah.category, \n    ah.growth_rate, \n    ah.is_block, \n    ah.is_longshot, \n    ah.tp_consumption, \n    ah.cooldown\n\nFROM skills.aura a\n\nJOIN en.skill_names n1\n    ON n1.id = a.name_id\n\nLEFT JOIN skills.aura_hissatsu ah\n    ON ah.skill_id = a.skill_id\n\nLEFT JOIN en.skill_names n2\n    ON n2.id = ah.name_id\n";

/// The query that lists the special moves; it binds nothing.
pub fn hissatsu_query() -> (query_builder: SqlQuery)
    ensures
        query_open(query_builder),
        query_text(query_builder) == HISSATSU_SQL@,
        query_arguments(query_builder) == Seq::<int>::empty(),
{
    new_query(HISSATSU_SQL)
}

/// The query that lists the auras; it binds nothing.
pub fn aura_query() -> (query_builder: SqlQuery)
    ensures
        query_open(query_builder),
        query_text(query_builder) == AURA_SQL@,
        query_arguments(query_builder) == Seq::<int>::empty(),
{
    new_query(AURA_SQL)
}

/// The special moves that the rows hold, in order, leaving out the rows
/// that do not hold one.
pub open spec fn hissatsu_of_rows(rows: Seq<HissatsuRow>) -> Seq<Hissatsu>
    decreases rows.len(),
{
    if rows.len() == 0 {
        Seq::empty()
    } else {
        let before = hissatsu_of_rows(rows.drop_last());
        match hissatsu_of_row(rows.last()) {
            Some(h) => before.push(h),
            None => before,
        }
    }
}

/// The auras that the rows hold, in order, leaving out the rows that do not
/// hold one.
pub open spec fn auras_of_rows(rows: Seq<AuraRow>) -> Seq<Aura>
    decreases rows.len(),
{
    if rows.len() == 0 {
        Seq::empty()
    } else {
        let before = auras_of_rows(rows.drop_last());
        match aura_of_row(rows.last()) {
            Some(a) => before.push(a),
            None => before,
        }
    }
}

/// Whether a special move can be read from a row without a fault.
pub fn hissatsu_row_is_readable(row: &HissatsuRow) -> (b: bool)
    ensures
        b == hissatsu_row_readable(*row),
{
    !(row.skill_id.is_some() && row.name.is_some() && row.power.is_some()) || (
    row.element.is_some() && match row.category {
        Some(c) => 1 <= c && c <= 4,
        None => false,
    })
}

/// Whether an aura can be read from a row without a fault.
pub fn aura_row_is_readable(row: &AuraRow) -> (b: bool)
    ensures
        b == aura_row_readable(*row),
{
    if !(row.aura_id.is_some() && row.aura_name.is_some()) {
        return true;
    }
    let type_ok = match row.aura_type {
        Some(t) => t <= 7,
        None => false,
    };
    let skill_ok = match row.skill.skill_id {
        Some(id) => id == 0 || hissatsu_row_is_readable(&row.skill),
        None => true,
    };
    type_ok && row.aura_element.is_some() && skill_ok
}

/// Reads the special moves of the list's rows, in order, leaving out the
/// rows whose optional columns could not be read.
pub fn parse_hissatsu_rows(rows: Vec<HissatsuRow>) -> (skills: Vec<Hissatsu>)
    requires
        forall|i: int| 0 <= i < rows@.len() ==> hissatsu_row_readable(#[trigger] rows@[i]),
    ensures
        skills@ == hissatsu_of_rows(rows@),
{
    let ghost all = rows@;
    let mut skills: Vec<Hissatsu> = Vec::new();
    for row in it: rows.into_iter()
        invariant
            it.seq() == all,
            forall|i: int| 0 <= i < all.len() ==> hissatsu_row_readable(#[trigger] all[i]),
            skills@ == hissatsu_of_rows(all.take(it.index() as int)),
    {
        let ghost i = it.index();
        assert(all.take(i + 1).drop_last() =~= all.take(i as int));
        assert(hissatsu_row_readable(all[i as int]));
        if let Some(skill) = Hissatsu::parse(row) {
            skills.push(skill);
        }
    }
    assert(all.take(all.len() as int) =~= all);
    skills
}

/// Reads the auras of the list's rows, in order, leaving out the rows whose
/// id, name or special move's id could not be read.
pub fn parse_aura_rows(rows: Vec<AuraRow>) -> (auras: Vec<Aura>)
    requires
        forall|i: int| 0 <= i < rows@.len() ==> aura_row_readable(#[trigger] rows@[i]),
    ensures
        auras@ == auras_of_rows(rows@),
{
    let ghost all = rows@;
    let mut auras: Vec<Aura> = Vec::new();
    for row in it: rows.into_iter()
        invariant
            it.seq() == all,
            forall|i: int| 0 <= i < all.len() ==> aura_row_readable(#[trigger] all[i]),
            auras@ == auras_of_rows(all.take(it.index() as int)),
    {
        let ghost i = it.index();
        assert(all.take(i + 1).drop_last() =~= all.take(i as int));
        assert(aura_row_readable(all[i as int]));
        if let Some(aura) = Aura::parse(row) {
            auras.push(aura);
        }
    }
    assert(all.take(all.len() as int) =~= all);
    auras
}

} // verus!
