//! Contains the default box characters.
use vstd::prelude::*;

verus! {

/// The default horizontal bar character `─`.
pub const DEFAULT_HORIZONTAL_BAR: &'static str = "─";

/// The default vertical bar character `│`.
pub const DEFAULT_VERTICAL_BAR: &'static str = "│";

/// The default left top corner character `╭`.
pub const DEFAULT_LEFT_TOP_CORNER: &'static str = "╭";

/// The default left bottom corner character `╰`.
pub const DEFAULT_LEFT_BOTTOM_CORNER: &'static str = "╰";

/// The default right top corner character `╮`.
pub const DEFAULT_RIGHT_TOP_CORNER: &'static str = "╮";

/// The default right bottom corner character `╯`.
pub const DEFAULT_RIGHT_BOTTOM_CORNER: &'static str = "╯";

} // verus!
