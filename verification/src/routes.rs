pub mod characters;
pub mod heroes;
pub mod skills;
