//! Card rules text for a trading card game: the typed ability tree and the
//! grammar that reads it from English-like text.

pub mod ability_data;
pub mod core_data;
pub mod display_data;
pub mod grammar;
pub mod parser;
