use vstd::prelude::*;

use super::common::Element;

verus! {

/// Category of a special move (hissatsu).
#[derive(Debug, Clone, Copy, PartialEq, Eq, Structural)]
pub enum Category {
    SHOOT,
    DRIBBLE,
    DEFENSE,
    GOALKEEPER,
}

impl Category {
    /// The integer that the database stores for this category.
    pub open spec fn spec_code(&self) -> u8 {
        match self {
            Category::SHOOT => 1,
            Category::DRIBBLE => 2,
            Category::DEFENSE => 3,
            Category::GOALKEEPER => 4,
        }
    }

    /// The category that a stored integer in 1..=4 stands for.
    pub open spec fn from_code(value: u8) -> Category {
        if value == 1 {
            Category::SHOOT
        } else if value == 2 {
            Category::DRIBBLE
        } else if value == 3 {
            Category::DEFENSE
        } else {
            Category::GOALKEEPER
        }
    }

    #[verifier::when_used_as_spec(spec_code)]
    pub fn code(&self) -> (c: u8)
        ensures
            c == self.spec_code(),
    {
        match self {
            Category::SHOOT => 1,
            Category::DRIBBLE => 2,
            Category::DEFENSE => 3,
            Category::GOALKEEPER => 4,
        }
    }

    /// The category that a stored integer stands for. Only 1..=4 stand for
    /// a category; any other value is a corrupt database.
    pub fn from(value: u8) -> (c: Category)
        requires
            1 <= value <= 4,
        ensures
            c == Category::from_code(value),
    {
        match value {
            1 => Category::SHOOT,
            2 => Category::DRIBBLE,
            3 => Category::DEFENSE,
            _ => Category::GOALKEEPER,
        }
    }
}

/// Kind of an aura.
#[derive(Debug, Clone, Copy, PartialEq, Eq, Structural)]
pub enum AuraType {
    Keshin,
    Armed,
    MixiMax,
    Totem,
    BondTransform,
    Awakening,
    ModeChange,
    AwakeningChange,
}

impl AuraType {
    /// The integer that the database stores for this aura type.
    pub open spec fn spec_code(&self) -> u8 {
        match self {
            AuraType::Keshin => 0,
            AuraType::Armed => 1,
            AuraType::MixiMax => 2,
            AuraType::Totem => 3,
            AuraType::BondTransform => 4,
            AuraType::Awakening => 5,
            AuraType::ModeChange => 6,
            AuraType::AwakeningChange => 7,
        }
    }

    /// The aura type that a stored integer in 0..=7 stands for.
    pub open spec fn from_code(value: u8) -> AuraType {
        if value == 0 {
            AuraType::Keshin
        } else if value == 1 {
            AuraType::Armed
        } else if value == 2 {
            AuraType::MixiMax
        } else if value == 3 {
            AuraType::Totem
        } else if value == 4 {
            AuraType::BondTransform
        } else if value == 5 {
            AuraType::Awakening
        } else if value == 6 {
            AuraType::ModeChange
        } else {
            AuraType::AwakeningChange
        }
    }

    #[verifier::when_used_as_spec(spec_code)]
    pub fn code(&self) -> (c: u8)
        ensures
            c == self.spec_code(),
    {
        match self {
            AuraType::Keshin => 0,
            AuraType::Armed => 1,
            AuraType::MixiMax => 2,
            AuraType::Totem => 3,
            AuraType::BondTransform => 4,
            AuraType::Awakening => 5,
            AuraType::ModeChange => 6,
            AuraType::AwakeningChange => 7,
        }
    }

    /// The aura type that a stored integer stands for. Only 0..=7 stand for
    /// an aura type; any other value is a corrupt database.
    pub fn from(value: u8) -> (t: AuraType)
        requires
            value <= 7,
        ensures
            t == AuraType::from_code(value),
    {
        match value {
            0 => AuraType::Keshin,
            1 => AuraType::Armed,
            2 => AuraType::MixiMax,
            3 => AuraType::Totem,
            4 => AuraType::BondTransform,
            5 => AuraType::Awakening,
            6 => AuraType::ModeChange,
            _ => AuraType::AwakeningChange,
        }
    }
}

/// A special move (hissatsu).
#[derive(Debug, Clone, PartialEq, Eq)]
pub struct Hissatsu {
    pub id: i32,
    pub name: String,
    pub power: u8,
    pub element: Element,
    pub category: Category,
    pub growth_rate: u8,
    pub is_block: bool,
    pub is_longshot: bool,
    pub tp_consumption: u8,
    pub cooldown: u8,
}

/// The columns of a special-move row, each as read with its type: `None`
/// where the column is missing, NULL or not of that type.
#[derive(Debug, Clone, PartialEq, Eq)]
pub struct HissatsuRow {
    pub skill_id: Option<i32>,
    pub name: Option<String>,
    pub power: Option<u8>,
    pub element: Option<i32>,
    pub category: Option<u8>,
    pub growth_rate: Option<u8>,
    pub is_block: Option<bool>,
    pub is_longshot: Option<bool>,
    pub tp_consumption: Option<u8>,
    pub cooldown: Option<u8>,
}

/// A row that a special move can be read from without a fault: once the
/// id, name and power were read, the `element` and `category` columns must
/// be there (they are not optional) and the category must be one of 1..=4.
pub open spec fn hissatsu_row_readable(row: HissatsuRow) -> bool {
    (row.skill_id is Some && row.name is Some && row.power is Some) ==> {
        &&& row.element is Some
        &&& row.category is Some
        &&& 1 <= row.category->0 <= 4
    }
}

/// The special move that a row holds: `None` where one of its optional
/// columns could not be read.
pub open spec fn hissatsu_of_row(row: HissatsuRow) -> Option<Hissatsu> {
    if row.skill_id is None || row.name is None || row.power is None || row.growth_rate is None
        || row.is_block is None || row.is_longshot is None || row.tp_consumption is None
        || row.cooldown is None {
        None
    } else {
        Some(
            Hissatsu {
                id: row.skill_id->0,
                name: row.name->0,
                power: row.power->0,
                element: Element::from_code(row.element->0 as int),
                category: Category::from_code(row.category->0),
                growth_rate: row.growth_rate->0,
                is_block: row.is_block->0,
                is_longshot: row.is_longshot->0,
                tp_consumption: row.tp_consumption->0,
                cooldown: row.cooldown->0,
            },
        )
    }
}

impl Hissatsu {
    /// Reads a special move from a row; `None` where an optional column
    /// could not be read.
    pub fn parse(row: HissatsuRow) -> (h: Option<Hissatsu>)
        requires
            hissatsu_row_readable(row),
        ensures
            h == hissatsu_of_row(row),
    {
        let id = match row.skill_id {
            Some(v) => v,
            None => return None,
        };
        let name = match row.name {
            Some(v) => v,
            None => return None,
        };
        let power = match row.power {
            Some(v) => v,
            None => return None,
        };
        let element = Element::from(row.element.unwrap());
        let category = Category::from(row.category.unwrap());
        let growth_rate = match row.growth_rate {
            Some(v) => v,
            None => return None,
        };
        let is_block = match row.is_block {
            Some(v) => v,
            None => return None,
        };
        let is_longshot = match row.is_longshot {
            Some(v) => v,
            None => return None,
        };
        let tp_consumption = match row.tp_consumption {
            Some(v) => v,
            None => return None,
        };
        let cooldown = match row.cooldown {
            Some(v) => v,
            None => return None,
        };
        Some(
            Hissatsu {
                id,
                name,
                power,
                element,
                category,
                growth_rate,
                is_block,
                is_longshot,
                tp_consumption,
                cooldown,
            },
        )
    }
}

/// An aura, with the special move it grants, if any.
#[derive(Debug, Clone, PartialEq, Eq)]
pub struct Aura {
    pub id: i32,
    pub name: String,
    pub aura_type: AuraType,
    pub element: Element,
    pub hissatsu: Option<Hissatsu>,
}

/// The columns of an aura row (`aura_id`, `aura_name`, `aura_type`,
/// `aura_element`), each as read with its type, and the columns of the
/// special move joined to it.
#[derive(Debug, Clone, PartialEq, Eq)]
pub struct AuraRow {
    pub aura_id: Option<i32>,
    pub aura_name: Option<String>,
    pub aura_type: Option<u8>,
    pub aura_element: Option<i32>,
    pub skill: HissatsuRow,
}

/// A row that an aura can be read from without a fault: once the id and
/// name were read, the aura type (one of 0..=7) and element must be there,
/// and where a special move with a nonzero id is joined its row must be
/// readable.
pub open spec fn aura_row_readable(row: AuraRow) -> bool {
    (row.aura_id is Some && row.aura_name is Some) ==> {
        &&& row.aura_type is Some
        &&& row.aura_type->0 <= 7
        &&& row.aura_element is Some
        &&& (row.skill.skill_id is Some && row.skill.skill_id->0 != 0) ==> hissatsu_row_readable(
            row.skill,
        )
    }
}

/// The aura that a row holds: `None` where the id, the name or the special
/// move's id could not be read. A special move's id of 0 means that the
/// aura grants none.
pub open spec fn aura_of_row(row: AuraRow) -> Option<Aura> {
    if row.aura_id is None || row.aura_name is None || row.skill.skill_id is None {
        None
    } else {
        Some(
            Aura {
                id: row.aura_id->0,
                name: row.aura_name->0,
                aura_type: AuraType::from_code(row.aura_type->0),
                element: Element::from_code(row.aura_element->0 as int),
                hissatsu: if row.skill.skill_id->0 != 0 {
                    hissatsu_of_row(row.skill)
                } else {
                    None
                },
            },
        )
    }
}

impl Aura {
    /// Reads an aura from a row; `None` where the id, the name or the
    /// special move's id could not be read.
    pub fn parse(row: AuraRow) -> (a: Option<Aura>)
        requires
            aura_row_readable(row),
        ensures
            a == aura_of_row(row),
    {
        let id = match row.aura_id {
            Some(v) => v,
            None => return None,
        };
        let name = match row.aura_name {
            Some(v) => v,
            None => return None,
        };
        let aura_type = AuraType::from(row.aura_type.unwrap());
        let element = Element::from(row.aura_element.unwrap());
        let value = match row.skill.skill_id {
            Some(v) => v,
            None => return None,
        };
        let hissatsu = if value != 0 {
            Hissatsu::parse(row.skill)
        } else {
            None
        };
        Some(Aura { id, name, aura_type, element, hissatsu })
    }
}

} // verus!
