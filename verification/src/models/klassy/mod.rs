//! Typed models of the Klassy window decoration configuration.

pub mod enums;
pub mod config;
pub mod preset;
pub mod preset_sections;
pub mod schema;
