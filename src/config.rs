//! The glyphs that draw a box, and the caption written into its bottom border.
use vstd::prelude::*;

use crate::default::{
    DEFAULT_HORIZONTAL_BAR, DEFAULT_LEFT_BOTTOM_CORNER, DEFAULT_LEFT_TOP_CORNER,
    DEFAULT_RIGHT_BOTTOM_CORNER, DEFAULT_RIGHT_TOP_CORNER, DEFAULT_VERTICAL_BAR,
};
use crate::dos::{
    DOS_HORIZONTAL_BAR, DOS_LEFT_BOTTOM_CORNER, DOS_LEFT_TOP_CORNER, DOS_RIGHT_BOTTOM_CORNER,
    DOS_RIGHT_TOP_CORNER, DOS_VERTICAL_BAR,
};

verus! {

/// Configure the last line caption and the box drawing characters.
#[derive(Debug, Clone, Copy)]
pub struct TextBoxConfig<'a> {
    /// The character to use as the horizontal bar.
    pub horizontal_bar: &'a str,
    /// The character to use as the vertical bar.
    pub vertical_bar: &'a str,
    /// The character to use for the left top corner.
    pub left_top_corner: &'a str,
    /// The character to use for the left bottom corner.
    pub left_bottom_corner: &'a str,
    /// The character to use for the right top corner.
    pub right_top_corner: &'a str,
    /// The character to use for the right bottom corner.
    pub right_bottom_corner: &'a str,
    /// The caption displayed on the last line of the box.
    pub last_line_caption: Option<&'a str>,
}

/// A configuration seen as character sequences: six glyphs and an optional caption.
pub struct BoxStyle {
    pub horizontal_bar: Seq<char>,
    pub vertical_bar: Seq<char>,
    pub left_top_corner: Seq<char>,
    pub left_bottom_corner: Seq<char>,
    pub right_top_corner: Seq<char>,
    pub right_bottom_corner: Seq<char>,
    pub caption: Option<Seq<char>>,
}

impl BoxStyle {
    /// Every glyph is a single character, so that each of them takes one column.
    pub open spec fn single_char_glyphs(self) -> bool {
        &&& self.horizontal_bar.len() == 1
        &&& self.vertical_bar.len() == 1
        &&& self.left_top_corner.len() == 1
        &&& self.left_bottom_corner.len() == 1
        &&& self.right_top_corner.len() == 1
        &&& self.right_bottom_corner.len() == 1
    }

    /// The same glyphs with the given caption.
    pub open spec fn captioned(self, caption: Seq<char>) -> BoxStyle {
        self.with_caption_option(Some(caption))
    }

    /// The same glyphs with the given caption, or with none.
    pub open spec fn with_caption_option(self, caption: Option<Seq<char>>) -> BoxStyle {
        BoxStyle { caption, ..self }
    }
}

impl<'a> View for TextBoxConfig<'a> {
    type V = BoxStyle;

    open spec fn view(&self) -> BoxStyle {
        BoxStyle {
            horizontal_bar: self.horizontal_bar@,
            vertical_bar: self.vertical_bar@,
            left_top_corner: self.left_top_corner@,
            left_bottom_corner: self.left_bottom_corner@,
            right_top_corner: self.right_top_corner@,
            right_bottom_corner: self.right_bottom_corner@,
            caption: match self.last_line_caption {
                Some(c) => Some(c@),
                None => None,
            },
        }
    }
}

/// The light preset: single-line glyphs with rounded corners, no caption.
pub open spec fn light_style() -> BoxStyle {
    BoxStyle {
        horizontal_bar: DEFAULT_HORIZONTAL_BAR@,
        vertical_bar: DEFAULT_VERTICAL_BAR@,
        left_top_corner: DEFAULT_LEFT_TOP_CORNER@,
        left_bottom_corner: DEFAULT_LEFT_BOTTOM_CORNER@,
        right_top_corner: DEFAULT_RIGHT_TOP_CORNER@,
        right_bottom_corner: DEFAULT_RIGHT_BOTTOM_CORNER@,
        caption: None,
    }
}

/// The double preset: double-line glyphs, no caption.
pub open spec fn double_style() -> BoxStyle {
    BoxStyle {
        horizontal_bar: DOS_HORIZONTAL_BAR@,
        vertical_bar: DOS_VERTICAL_BAR@,
        left_top_corner: DOS_LEFT_TOP_CORNER@,
        left_bottom_corner: DOS_LEFT_BOTTOM_CORNER@,
        right_top_corner: DOS_RIGHT_TOP_CORNER@,
        right_bottom_corner: DOS_RIGHT_BOTTOM_CORNER@,
        caption: None,
    }
}

impl<'a> TextBoxConfig<'a> {
    /// Create a DOS-styled text box config.
    pub fn dos() -> (r: Self)
        ensures
            r@ == double_style(),
    {
        TextBoxConfig {
            horizontal_bar: DOS_HORIZONTAL_BAR,
            vertical_bar: DOS_VERTICAL_BAR,
            left_top_corner: DOS_LEFT_TOP_CORNER,
            left_bottom_corner: DOS_LEFT_BOTTOM_CORNER,
            right_top_corner: DOS_RIGHT_TOP_CORNER,
            right_bottom_corner: DOS_RIGHT_BOTTOM_CORNER,
            last_line_caption: None,
        }
    }

    /// Add the given caption to the current text box configuration. The glyphs
    /// are kept as they are; the configuration this was made from is a value of
    /// its own and stays unchanged.
    pub fn with_caption(self, caption: &'a str) -> (r: Self)
        ensures
            r@ == self@.captioned(caption@),
    {
        TextBoxConfig { last_line_caption: Some(caption), ..self }
    }
}

impl<'a> Default for TextBoxConfig<'a> {
    /// The light preset without a caption.
    fn default() -> (r: Self)
        ensures
            r@ == light_style(),
    {
        TextBoxConfig {
            horizontal_bar: DEFAULT_HORIZONTAL_BAR,
            vertical_bar: DEFAULT_VERTICAL_BAR,
            left_top_corner: DEFAULT_LEFT_TOP_CORNER,
            left_bottom_corner: DEFAULT_LEFT_BOTTOM_CORNER,
            right_top_corner: DEFAULT_RIGHT_TOP_CORNER,
            right_bottom_corner: DEFAULT_RIGHT_BOTTOM_CORNER,
            last_line_caption: None,
        }
    }
}

} // verus!
