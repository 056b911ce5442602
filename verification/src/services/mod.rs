//! The computing parts of the file, process and palette services.

pub mod process;
pub mod klassy_files;
pub mod kvantum_themes;
pub mod palette;
pub mod wallpaper;
pub mod preview;
pub mod plasma;
pub mod apply_steps;
pub mod json;
pub mod recolor;
