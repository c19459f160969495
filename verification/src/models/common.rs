use vstd::prelude::*;

verus! {

/// Element of a character or a skill.
#[derive(Debug, Clone, Copy, PartialEq, Eq, Hash, Structural)]
pub enum Element {
    WIND,
    FOREST,
    FIRE,
    MOUNTAIN,
    UNKNOWN,
}

impl Element {
    /// The integer that the database stores for this element.
    pub open spec fn spec_code(&self) -> u8 {
        match self {
            Element::WIND => 1,
            Element::FOREST => 2,
            Element::FIRE => 3,
            Element::MOUNTAIN => 4,
            Element::UNKNOWN => 5,
        }
    }

    /// The element that a stored integer stands for; any integer outside
    /// 1..=4 stands for `UNKNOWN`.
    pub open spec fn from_code(value: int) -> Element {
        if value == 1 {
            Element::WIND
        } else if value == 2 {
            Element::FOREST
        } else if value == 3 {
            Element::FIRE
        } else if value == 4 {
            Element::MOUNTAIN
        } else {
            Element::UNKNOWN
        }
    }

    #[verifier::when_used_as_spec(spec_code)]
    pub fn code(&self) -> (c: u8)
        ensures
            c == self.spec_code(),
    {
        match self {
            Element::WIND => 1,
            Element::FOREST => 2,
            Element::FIRE => 3,
            Element::MOUNTAIN => 4,
            Element::UNKNOWN => 5,
        }
    }
}

impl From<i32> for Element {
    fn from(value: i32) -> (e: Element) {
        match value {
            1 => Element::WIND,
            2 => Element::FOREST,
            3 => Element::FIRE,
            4 => Element::MOUNTAIN,
            _ => Element::UNKNOWN,
        }
    }
}

impl vstd::std_specs::convert::FromSpecImpl<i32> for Element {
    open spec fn obeys_from_spec() -> bool {
        true
    }

    open spec fn from_spec(v: i32) -> Element {
        Element::from_code(v as int)
    }
}


/// Playing position of a character.
#[derive(Debug, Clone, Copy, PartialEq, Eq, Hash, Structural)]
pub enum Position {
    GK,
    DF,
    MF,
    FW,
    UNKNOWN,
}

impl Position {
    /// The integer that the database stores for this position.
    pub open spec fn spec_code(&self) -> u8 {
        match self {
            Position::GK => 1,
            Position::DF => 4,
            Position::MF => 3,
            Position::FW => 2,
            Position::UNKNOWN => 5,
        }
    }

    /// The position that a stored integer stands for; any integer outside
    /// 1..=4 stands for `UNKNOWN`.
    pub open spec fn from_code(value: int) -> Position {
        if value == 1 {
            Position::GK
        } else if value == 2 {
            Position::FW
        } else if value == 3 {
            Position::MF
        } else if value == 4 {
            Position::DF
        } else {
            Position::UNKNOWN
        }
    }

    #[verifier::when_used_as_spec(spec_code)]
    pub fn code(&self) -> (c: u8)
        ensures
            c == self.spec_code(),
    {
        match self {
            Position::GK => 1,
            Position::DF => 4,
            Position::MF => 3,
            Position::FW => 2,
            Position::UNKNOWN => 5,
        }
    }
}

impl From<i32> for Position {
    fn from(value: i32) -> (p: Position) {
        match value {
            1 => Position::GK,
            2 => Position::FW,
            3 => Position::MF,
            4 => Position::DF,
            _ => Position::UNKNOWN,
        }
    }
}

impl vstd::std_specs::convert::FromSpecImpl<i32> for Position {
    open spec fn obeys_from_spec() -> bool {
        true
    }

    open spec fn from_spec(v: i32) -> Position {
        Position::from_code(v as int)
    }
}

/// Play style of a character.
#[derive(Debug, Clone, Copy, PartialEq, Eq, Hash, Structural)]
pub enum Style {
    BREACH,
    COUNTER,
    BOND,
    TENSION,
    ROUGH,
    JUSTICE,
    UNKNOWN,
}

impl Style {
    /// The integer that the database stores for this style.
    pub open spec fn spec_code(&self) -> u8 {
        match self {
            Style::BREACH => 0,
            Style::COUNTER => 1,
            Style::BOND => 2,
            Style::TENSION => 3,
            Style::ROUGH => 4,
            Style::JUSTICE => 5,
            Style::UNKNOWN => 6,
        }
    }

    /// The style that a stored integer stands for; any integer outside
    /// 0..=5 stands for `UNKNOWN`.
    pub open spec fn from_code(value: int) -> Style {
        if value == 0 {
            Style::BREACH
        } else if value == 1 {
            Style::COUNTER
        } else if value == 2 {
            Style::BOND
        } else if value == 3 {
            Style::TENSION
        } else if value == 4 {
            Style::ROUGH
        } else if value == 5 {
            Style::JUSTICE
        } else {
            Style::UNKNOWN
        }
    }

    #[verifier::when_used_as_spec(spec_code)]
    pub fn code(&self) -> (c: u8)
        ensures
            c == self.spec_code(),
    {
        match self {
            Style::BREACH => 0,
            Style::COUNTER => 1,
            Style::BOND => 2,
            Style::TENSION => 3,
            Style::ROUGH => 4,
            Style::JUSTICE => 5,
            Style::UNKNOWN => 6,
        }
    }
}

impl From<i32> for Style {
    fn from(value: i32) -> (s: Style) {
        match value {
            0 => Style::BREACH,
            1 => Style::COUNTER,
            2 => Style::BOND,
            3 => Style::TENSION,
            4 => Style::ROUGH,
            5 => Style::JUSTICE,
            _ => Style::UNKNOWN,
        }
    }
}

impl vstd::std_specs::convert::FromSpecImpl<i32> for Style {
    open spec fn obeys_from_spec() -> bool {
        true
    }

    open spec fn from_spec(v: i32) -> Style {
        Style::from_code(v as int)
    }
}

/// Level-50 statistics of a character.
#[derive(Debug, Clone, Copy, Default, PartialEq, Eq, Structural)]
pub struct Stats {
    pub kick: u16,
    pub control: u16,
    pub technique: u16,
    pub pressure: u16,
    pub physical: u16,
    pub agility: u16,
    pub intelligence: u16,
}

/// The seven statistic columns of a row (`lvl50_kick` ... `lvl50_intelligence`),
/// each as read as a `u16`: `None` where the column is missing, NULL or not
/// a `u16`.
#[derive(Debug, Clone, Copy, PartialEq, Eq, Structural)]
pub struct StatsColumns {
    pub lvl50_kick: Option<u16>,
    pub lvl50_control: Option<u16>,
    pub lvl50_technique: Option<u16>,
    pub lvl50_pressure: Option<u16>,
    pub lvl50_physical: Option<u16>,
    pub lvl50_agility: Option<u16>,
    pub lvl50_intelligence: Option<u16>,
}

/// A statistic column that could not be read.
#[derive(Debug, Clone, Copy, PartialEq, Eq, Structural)]
pub enum StatsColumn {
    Kick,
    Control,
    Technique,
    Pressure,
    Physical,
    Agility,
    Intelligence,
}

/// The statistics of a row, or the first column, in the order kick, control,
/// technique, pressure, physical, agility, intelligence, that could not be
/// read.
pub open spec fn stats_of_columns(c: StatsColumns) -> Result<Stats, StatsColumn> {
    if c.lvl50_kick is None {
        Err(StatsColumn::Kick)
    } else if c.lvl50_control is None {
        Err(StatsColumn::Control)
    } else if c.lvl50_technique is None {
        Err(StatsColumn::Technique)
    } else if c.lvl50_pressure is None {
        Err(StatsColumn::Pressure)
    } else if c.lvl50_physical is None {
        Err(StatsColumn::Physical)
    } else if c.lvl50_agility is None {
        Err(StatsColumn::Agility)
    } else if c.lvl50_intelligence is None {
        Err(StatsColumn::Intelligence)
    } else {
        Ok(
            Stats {
                kick: c.lvl50_kick->0,
                control: c.lvl50_control->0,
                technique: c.lvl50_technique->0,
                pressure: c.lvl50_pressure->0,
                physical: c.lvl50_physical->0,
                agility: c.lvl50_agility->0,
                intelligence: c.lvl50_intelligence->0,
            },
        )
    }
}

impl TryFrom<StatsColumns> for Stats {
    type Error = StatsColumn;

    fn try_from(value: StatsColumns) -> (r: Result<Stats, StatsColumn>) {
        let kick = match value.lvl50_kick {
            Some(v) => v,
            None => return Err(StatsColumn::Kick),
        };
        let control = match value.lvl50_control {
            Some(v) => v,
            None => return Err(StatsColumn::Control),
        };
        let technique = match value.lvl50_technique {
            Some(v) => v,
            None => return Err(StatsColumn::Technique),
        };
        let pressure = match value.lvl50_pressure {
            Some(v) => v,
            None => return Err(StatsColumn::Pressure),
        };
        let physical = match value.lvl50_physical {
            Some(v) => v,
            None => return Err(StatsColumn::Physical),
        };
        let agility = match value.lvl50_agility {
            Some(v) => v,
            None => return Err(StatsColumn::Agility),
        };
        let intelligence = match value.lvl50_intelligence {
            Some(v) => v,
            None => return Err(StatsColumn::Intelligence),
        };
        Ok(Stats { kick, control, technique, pressure, physical, agility, intelligence })
    }
}

impl vstd::std_specs::convert::TryFromSpecImpl<StatsColumns> for Stats {
    open spec fn obeys_try_from_spec() -> bool {
        true
    }

    open spec fn try_from_spec(v: StatsColumns) -> Result<Stats, StatsColumn> {
        stats_of_columns(v)
    }
}

} // verus!
