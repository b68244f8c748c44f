//! Contains DOS-styled box characters.
use vstd::prelude::*;

verus! {

/// The DOS horizontal bar character `═`.
pub const DOS_HORIZONTAL_BAR: &'static str = "═";

/// The DOS vertical bar character `║`.
pub const DOS_VERTICAL_BAR: &'static str = "║";

/// The DOS left top corner character `╔`.
pub const DOS_LEFT_TOP_CORNER: &'static str = "╔";

/// The DOS left bottom corner character `╚`.
pub const DOS_LEFT_BOTTOM_CORNER: &'static str = "╚";

/// The DOS right top corner character `╗`.
pub const DOS_RIGHT_TOP_CORNER: &'static str = "╗";

/// The DOS right bottom corner character `╝`.
pub const DOS_RIGHT_BOTTOM_CORNER: &'static str = "╝";

} // verus!
