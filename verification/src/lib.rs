//! EZPR: a player-ranking tool for start.gg tournaments.
//!
//! The verified core: the EZPR database file format (table descriptions,
//! the SQL that creates them, typed row reading, the currently opened
//! file), the start.gg OAuth redirect handling, the extraction of start.gg
//! GraphQL query results, and the application settings.
pub mod text;
pub mod ezpr_file_format;
pub mod settings;
pub mod queries;
pub mod oauth;
