//! Verified core of the tano music player: configuration parsing, key
//! bindings, directory resolution, song metadata assembly and the SQL
//! statements that keep the song library in sync.

pub mod query;
pub mod text;
pub mod config;
pub mod shared;
pub mod providers;
pub mod database;
pub mod backend;
