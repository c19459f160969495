use vstd::prelude::*;

use super::common::{stats_of_columns, Element, Position, Stats, StatsColumns, Style};

verus! {

/// A line of the character list, as the character search answers it.
#[derive(Debug, Clone, PartialEq, Eq)]
pub struct CharacterSummary {
    pub index: u16,
    pub name: String,
    pub element: Element,
    pub main_positon: Position,
    pub style: Style,
    pub series: String,
    pub stats: Stats,
}

/// A row of the character search. The columns that are read without a
/// fallback (`index_id`, `name`, `element`, `main_position`, `style`,
/// `series_name`) hold plain values; the statistics may be missing.
#[derive(Debug, Clone, PartialEq, Eq)]
pub struct CharacterRow {
    pub index_id: u16,
    pub name: String,
    pub element: i32,
    pub main_position: i32,
    pub style: i32,
    pub series_name: String,
    pub stats: StatsColumns,
}

/// The summary that a row holds: `None` where a statistic could not be read.
pub open spec fn summary_of_row(row: CharacterRow) -> Option<CharacterSummary> {
    match stats_of_columns(row.stats) {
        Ok(stats) => Some(
            CharacterSummary {
                index: row.index_id,
                name: row.name,
                element: Element::from_code(row.element as int),
                main_positon: Position::from_code(row.main_position as int),
                style: Style::from_code(row.style as int),
                series: row.series_name,
                stats,
            },
        ),
        Err(_) => None,
    }
}

impl CharacterSummary {
    /// Reads a summary from a row; `None` where a statistic could not be
    /// read.
    pub fn parse(row: CharacterRow) -> (s: Option<CharacterSummary>)
        ensures
            s == summary_of_row(row),
    {
        let index = row.index_id;
        let name = row.name;
        let element = Element::from(row.element);
        let main_positon = Position::from(row.main_position);
        let style = Style::from(row.style);
        let series = row.series_name;
        let stats = match Stats::try_from(row.stats) {
            Ok(stats) => stats,
            Err(_) => return None,
        };
        Some(CharacterSummary { index, name, element, main_positon, style, series, stats })
    }
}

} // verus!
