//! Plain message boxes: a block of text lines framed by box-drawing glyphs,
//! every line left-aligned and padded to a common width, with an optional
//! caption set into the bottom border.

pub mod config;
pub mod default;
pub mod dos;
pub mod laws;
pub mod render;

pub use config::TextBoxConfig;
pub use render::{generate_box, generate_with_caption, generate_with_config};
