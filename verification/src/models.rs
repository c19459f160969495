pub mod common;
pub mod skill;
pub mod character_summary;
