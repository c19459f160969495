//! The hero list: its query and the reading of its rows through a
//! translation.

use vstd::prelude::*;

use crate::models::common::stats_of_columns;
use crate::character::summary::{hero_row_readable, hero_summary_of_row, CharacterSummary, HeroRow};
use crate::translations::Translation;

verus! {

/// The SQL text that lists the heroes.
pub const HERO_SUMMARY_SQL: &'static str = "\n        SELECT index_id, name_id, element, main_position, style, series_id\n        FROM heroes\n        ";

/// Whether a hero's summary can be read from a row: without a fault, and
/// with a name in the translation and every statistic present.
pub open spec fn hero_row_complete(row: HeroRow, t: Translation) -> bool {
    hero_row_readable(row, t) && hero_summary_of_row(row, t) is Some
}

/// Whether a hero's summary can be read from a row under `translation`
/// (`hero_row_complete`).
pub fn hero_row_is_complete(row: &HeroRow, translation: &Translation) -> (b: bool)
    ensures
        b == hero_row_complete(*row, *translation),
{
    if translation.name(row.name_id).is_none() {
        return false;
    }
    let series_ok = match row.series_id {
        Some(id) => translation.series_name.contains_key(&id),
        None => false,
    };
    let stats = &row.stats;
    let stats_ok = stats.lvl50_kick.is_some() && stats.lvl50_control.is_some()
        && stats.lvl50_technique.is_some() && stats.lvl50_pressure.is_some()
        && stats.lvl50_physical.is_some() && stats.lvl50_agility.is_some()
        && stats.lvl50_intelligence.is_some();
    proof {
        assert(stats_ok <==> stats_of_columns(row.stats) is Ok);
    }
    row.element.is_some() && row.main_position.is_some() && row.style.is_some() && series_ok
        && stats_ok
}

/// Reads the summaries of the hero list's rows, in order, naming them
/// through `translation`. Every row must hold a summary: a hero that the
/// translation does not name, or whose statistics are missing, is a
/// corrupt database.
pub fn parse_hero_rows(rows: Vec<HeroRow>, translation: &Translation) -> (summaries: Vec<
    CharacterSummary,
>)
    requires
        forall|i: int| 0 <= i < rows@.len() ==> hero_row_complete(#[trigger] rows@[i], *translation),
    ensures
        summaries@.len() == rows@.len(),
        forall|i: int|
            0 <= i < rows@.len() ==> Some(#[trigger] summaries@[i]) == hero_summary_of_row(
                rows@[i],
                *translation,
            ),
{
    let ghost all = rows@;
    let mut summaries: Vec<CharacterSummary> = Vec::new();
    for row in it: rows.into_iter()
        invariant
            it.seq() == all,
            forall|i: int| 0 <= i < all.len() ==> hero_row_complete(#[trigger] all[i], *translation),
            summaries@.len() == it.index(),
            forall|j: int|
                0 <= j < it.index() ==> Some(#[trigger] summaries@[j]) == hero_summary_of_row(
                    all[j],
                    *translation,
                ),
    {
        let ghost i = it.index();
        assert(hero_row_complete(all[i as int], *translation));
        let summary = CharacterSummary::parse(row, translation).unwrap();
        summaries.push(summary);
    }
    summaries
}

} // verus!
