//! Decisions and text handling of a wallpaper picker for Wayland
//! compositors: validating the chosen file, building the compositor
//! commands, judging their outcome and remembering the loaded wallpaper.

pub mod text;
pub mod command;
pub mod backends;
pub mod utils;
pub mod laws;
