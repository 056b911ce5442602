//! Editing model for KDE Plasma themes: INI documents, colours, Klassy and
//! Kvantum configuration models and an undo/redo history.

pub mod text;
pub mod num;
pub mod color;
pub mod strmap;
pub mod undo_redo;
pub mod ini;
pub mod models;
pub mod paths;
pub mod services;
pub mod locale;
pub mod svg;
pub mod editor;
pub mod settings;
pub mod ui_bindings;
pub mod pages;
pub mod kvantum_page;
pub mod settings_page;
