//! Typed models of Klassy and Kvantum configuration files.

pub mod values;
pub mod kvantum;
pub mod klassy;
