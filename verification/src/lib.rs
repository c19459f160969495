//! Verified core of the character and skill database backend: the game
//! enumerations, the conversion of database rows into API records, the SQL
//! text of the character search, cache keys and translation lookups.

pub mod character;
pub mod laws;
pub mod models;
pub mod routes;
pub mod setup;
pub mod sql;
pub mod text;
pub mod translations;
