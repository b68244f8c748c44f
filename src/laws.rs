//! What holds of every box: the rows line up, each line is shown as it is,
//! and the interior is exactly as wide as its widest occupant.
use vstd::prelude::*;

use crate::config::{double_style, light_style, BoxStyle};
use crate::default::{
    DEFAULT_HORIZONTAL_BAR, DEFAULT_LEFT_BOTTOM_CORNER, DEFAULT_LEFT_TOP_CORNER,
    DEFAULT_RIGHT_BOTTOM_CORNER, DEFAULT_RIGHT_TOP_CORNER, DEFAULT_VERTICAL_BAR,
};
use crate::dos::{
    DOS_HORIZONTAL_BAR, DOS_LEFT_BOTTOM_CORNER, DOS_LEFT_TOP_CORNER, DOS_RIGHT_BOTTOM_CORNER,
    DOS_RIGHT_TOP_CORNER, DOS_VERTICAL_BAR,
};
use crate::render::{
    bottom_row, box_rows, caption_len, content_row, interior_width, lemma_longest_is_max, longest, repeat,
    spaces, top_row,
};

verus! {

/// `s` repeated `n` times is `n` times as long as `s`.
pub proof fn lemma_repeat_len(s: Seq<char>, n: nat)
    ensures
        repeat(s, n).len() == n * s.len(),
    decreases n,
{
    if n > 0 {
        lemma_repeat_len(s, (n - 1) as nat);
        assert((n - 1) * s.len() + s.len() == n * s.len()) by (nonlinear_arith);
    }
}

/// `n` spaces are `n` characters.
pub proof fn lemma_spaces_len(n: nat)
    ensures
        spaces(n).len() == n,
    decreases n,
{
    if n > 0 {
        lemma_spaces_len((n - 1) as nat);
    }
}

/// With one-character glyphs, every row of a box (the top border, each
/// content row and the bottom border, captioned or not) is four characters
/// wider than the interior: all rows have the same length.
pub proof fn lemma_rows_same_width(lines: Seq<Seq<char>>, style: BoxStyle)
    requires
        style.single_char_glyphs(),
    ensures
        box_rows(lines, style).len() == lines.len() + 2,
        forall|i: int|
            0 <= i < box_rows(lines, style).len() ==> #[trigger] box_rows(lines, style)[i].len()
                == interior_width(lines, style.caption) + 4,
{
    let w = interior_width(lines, style.caption);
    let rows = box_rows(lines, style);
    lemma_longest_is_max(lines);
    lemma_repeat_len(style.horizontal_bar, w + 2);
    if let Some(c) = style.caption {
        lemma_repeat_len(style.horizontal_bar, (w - c.len() + 1) as nat);
    }
    assert forall|i: int| 0 <= i < rows.len() implies #[trigger] rows[i].len() == w + 4 by {
        if 0 < i < rows.len() - 1 {
            let l = lines[i - 1];
            assert(l.len() <= w);
            lemma_spaces_len((w - l.len()) as nat);
            assert(rows[i] == content_row(style, l, w));
            assert(spaces((w - l.len()) as nat).len() == w - l.len());
        } else if i == 0 {
            assert(rows[i] == top_row(style, w));
            assert(repeat(style.horizontal_bar, w + 2).len() == w + 2);
        } else {
            assert(rows[i] == bottom_row(style, w));
            assert(repeat(style.horizontal_bar, w + 2).len() == w + 2);
            if let Some(c) = style.caption {
                assert(c.len() <= w);
                assert(repeat(style.horizontal_bar, (w - c.len() + 1) as nat).len() == w - c.len() + 1);
            }
        }
    }
}

/// In the row of each line, the vertical bar and one space are followed by
/// the line itself, every character of it, in order.
pub proof fn lemma_content_follows_bar(lines: Seq<Seq<char>>, style: BoxStyle)
    ensures
        forall|i: int|
            0 <= i < lines.len() ==> {
                let row = #[trigger] box_rows(lines, style)[i + 1];
                let start = style.vertical_bar.len() as int + 1;
                &&& row.subrange(0, start) == style.vertical_bar + seq![' ']
                &&& row.subrange(start, start + lines[i].len() as int) == lines[i]
            },
{
    let w = interior_width(lines, style.caption);
    let rows = box_rows(lines, style);
    assert forall|i: int| 0 <= i < lines.len() implies {
        let row = #[trigger] box_rows(lines, style)[i + 1];
        let start = style.vertical_bar.len() as int + 1;
        &&& row.subrange(0, start) == style.vertical_bar + seq![' ']
        &&& row.subrange(start, start + lines[i].len() as int) == lines[i]
    } by {
        let l = lines[i];
        let row = rows[i + 1];
        let start = style.vertical_bar.len() as int + 1;
        assert(row == content_row(style, l, w));
        assert(row.subrange(0, start) =~= style.vertical_bar + seq![' ']);
        assert(row.subrange(start, start + l.len() as int) =~= l);
    }
}

/// The interior is exactly as wide as the longer of the longest line and the
/// caption: wide enough for each, and as wide as one of them (or empty when
/// there are neither lines nor caption). With one-character glyphs the top
/// border, and so every row, is that width plus four.
pub proof fn lemma_interior_width(lines: Seq<Seq<char>>, style: BoxStyle)
    ensures
        forall|i: int|
            0 <= i < lines.len() ==> #[trigger] lines[i].len() <= interior_width(
                lines,
                style.caption,
            ),
        caption_len(style.caption) <= interior_width(lines, style.caption),
        interior_width(lines, style.caption) == caption_len(style.caption) || exists|i: int|
            0 <= i < lines.len() && #[trigger] lines[i].len() == interior_width(
                lines,
                style.caption,
            ),
        style.single_char_glyphs() ==> box_rows(lines, style)[0].len() == interior_width(
            lines,
            style.caption,
        ) + 4,
{
    lemma_longest_is_max(lines);
    if style.single_char_glyphs() {
        lemma_rows_same_width(lines, style);
    }
}

/// Both presets draw with one-character glyphs.
pub proof fn lemma_presets_single_char()
    ensures
        light_style().single_char_glyphs(),
        double_style().single_char_glyphs(),
{
    reveal_strlit("─");
    reveal_strlit("│");
    reveal_strlit("╭");
    reveal_strlit("╰");
    reveal_strlit("╮");
    reveal_strlit("╯");
    reveal_strlit("═");
    reveal_strlit("║");
    reveal_strlit("╔");
    reveal_strlit("╚");
    reveal_strlit("╗");
    reveal_strlit("╝");
}

/// The double preset lays out a box exactly as the light one does, with or
/// without a caption: the same number of rows, each of the same length.
pub proof fn lemma_double_same_layout(lines: Seq<Seq<char>>, caption: Option<Seq<char>>)
    ensures
        box_rows(lines, double_style().with_caption_option(caption)).len() == box_rows(
            lines,
            light_style().with_caption_option(caption),
        ).len(),
        forall|i: int|
            0 <= i < lines.len() + 2 ==> (#[trigger] box_rows(
                lines,
                double_style().with_caption_option(caption),
            )[i]).len() == box_rows(lines, light_style().with_caption_option(caption))[i].len(),
{
    lemma_presets_single_char();
    lemma_rows_same_width(lines, double_style().with_caption_option(caption));
    lemma_rows_same_width(lines, light_style().with_caption_option(caption));
}

/// Giving a style a caption changes the caption alone: every glyph stays as
/// it was, and the style it was made from is a value of its own.
pub proof fn lemma_caption_keeps_glyphs(style: BoxStyle, caption: Seq<char>)
    ensures
        style.captioned(caption).caption == Some(caption),
        style.captioned(caption).horizontal_bar == style.horizontal_bar,
        style.captioned(caption).vertical_bar == style.vertical_bar,
        style.captioned(caption).left_top_corner == style.left_top_corner,
        style.captioned(caption).left_bottom_corner == style.left_bottom_corner,
        style.captioned(caption).right_top_corner == style.right_top_corner,
        style.captioned(caption).right_bottom_corner == style.right_bottom_corner,
{
}

} // verus!
