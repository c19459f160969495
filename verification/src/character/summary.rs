//! Character summaries whose names and series names are looked up in a
//! translation.

use vstd::prelude::*;

use crate::models::common::{stats_of_columns, Element, Position, Stats, StatsColumns, Style};
use crate::translations::Translation;

verus! {

/// A line of the character list, named in the language of a translation.
#[derive(Debug)]
pub struct CharacterSummary {
    pub index: u16,
    pub name: String,
    pub element: Element,
    pub main_positon: Position,
    pub style: Style,
    pub series: String,
    pub stats: Stats,
}

/// A row of the character table as a summary reads it: `index_id` and
/// `name_id` hold plain values (they are read first and without a
/// fallback); the other columns, read only once the name was found, may be
/// missing.
#[derive(Debug, Clone, PartialEq, Eq)]
pub struct HeroRow {
    pub index_id: u16,
    pub name_id: i32,
    pub element: Option<i32>,
    pub main_position: Option<i32>,
    pub style: Option<i32>,
    pub series_id: Option<i32>,
    pub stats: StatsColumns,
}

/// A row that a summary can be read from without a fault: where the
/// translation names the character, the element, position, style and
/// series columns are there and the translation has the series.
pub open spec fn hero_row_readable(row: HeroRow, t: Translation) -> bool {
    t.character_names@.contains_key(row.name_id) ==> {
        &&& row.element is Some
        &&& row.main_position is Some
        &&& row.style is Some
        &&& row.series_id is Some
        &&& t.series_name@.contains_key(row.series_id->0)
    }
}

/// The summary that a row holds under a translation: `None` where the
/// translation has no name for it or a statistic could not be read.
pub open spec fn hero_summary_of_row(row: HeroRow, t: Translation) -> Option<CharacterSummary> {
    if !t.character_names@.contains_key(row.name_id) {
        None
    } else {
        match stats_of_columns(row.stats) {
            Ok(stats) => Some(
                CharacterSummary {
                    index: row.index_id,
                    name: t.character_names@[row.name_id],
                    element: Element::from_code(row.element->0 as int),
                    main_positon: Position::from_code(row.main_position->0 as int),
                    style: Style::from_code(row.style->0 as int),
                    series: t.series_name@[row.series_id->0],
                    stats,
                },
            ),
            Err(_) => None,
        }
    }
}

impl CharacterSummary {
    /// Reads a summary from a row, naming it through `translation`; `None`
    /// where the translation has no name for the character or a statistic
    /// could not be read.
    pub fn parse(row: HeroRow, translation: &Translation) -> (s: Option<CharacterSummary>)
        requires
            hero_row_readable(row, *translation),
        ensures
            s == hero_summary_of_row(row, *translation),
    {
        let index = row.index_id;
        let name = match translation.name(row.name_id) {
            Some(name) => name.clone(),
            None => return None,
        };
        let element = Element::from(row.element.unwrap());
        let main_positon = Position::from(row.main_position.unwrap());
        let style = Style::from(row.style.unwrap());
        let series = translation.series(row.series_id.unwrap());
        let stats = match Stats::try_from(row.stats) {
            Ok(stats) => stats,
            Err(_) => return None,
        };
        Some(CharacterSummary { index, name, element, main_positon, style, series, stats })
    }

    /// The character's name.
    pub fn name(&self) -> (n: &str)
        ensures
            n@ == self.name@,
    {
        self.name.as_str()
    }
}

} // verus!
