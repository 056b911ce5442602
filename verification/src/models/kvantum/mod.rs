//! Typed models of the sections of a Kvantum `.kvconfig` theme file.

pub mod section;
pub mod general;
pub mod colors;
pub mod config;
