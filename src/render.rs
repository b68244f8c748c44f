//! Drawing a box: the mathematical picture of every row, and the functions
//! that build it.
use vstd::prelude::*;

use crate::config::{light_style, BoxStyle, TextBoxConfig};

verus! {

/// The lines as character sequences.
pub open spec fn lines_view(lines: Seq<String>) -> Seq<Seq<char>> {
    lines.map_values(|l: String| l@)
}

/// The length of the longest line, 0 when there are none.
pub open spec fn longest(lines: Seq<Seq<char>>) -> nat
    decreases lines.len(),
{
    if lines.len() == 0 {
        0
    } else {
        let m = longest(lines.drop_last());
        if lines.last().len() > m {
            lines.last().len()
        } else {
            m
        }
    }
}

/// The length of the caption, 0 when there is none.
pub open spec fn caption_len(caption: Option<Seq<char>>) -> nat {
    match caption {
        Some(c) => c.len(),
        None => 0,
    }
}

/// The width of the area between the padding columns: wide enough for the
/// longest line and for the caption.
pub open spec fn interior_width(lines: Seq<Seq<char>>, caption: Option<Seq<char>>) -> nat {
    let l = longest(lines);
    let c = caption_len(caption);
    if l >= c {
        l
    } else {
        c
    }
}

/// `s` written `n` times over.
pub open spec fn repeat(s: Seq<char>, n: nat) -> Seq<char>
    decreases n,
{
    if n == 0 {
        Seq::empty()
    } else {
        repeat(s, (n - 1) as nat) + s
    }
}

/// `n` spaces.
pub open spec fn spaces(n: nat) -> Seq<char> {
    repeat(seq![' '], n)
}

/// The top border for an interior of width `w`.
pub open spec fn top_row(style: BoxStyle, w: nat) -> Seq<char> {
    style.left_top_corner + repeat(style.horizontal_bar, w + 2) + style.right_top_corner
}

/// The row that shows `line`, padded on the right to width `w`.
pub open spec fn content_row(style: BoxStyle, line: Seq<char>, w: nat) -> Seq<char> {
    style.vertical_bar + seq![' '] + line + spaces((w - line.len()) as nat) + seq![' ']
        + style.vertical_bar
}

/// The bottom border for an interior of width `w`: the caption between angle
/// brackets in place of the left corner, where there is a caption.
pub open spec fn bottom_row(style: BoxStyle, w: nat) -> Seq<char> {
    match style.caption {
        Some(c) => seq!['<'] + c + seq!['>'] + repeat(style.horizontal_bar, (w - c.len() + 1) as nat)
            + style.right_bottom_corner,
        None => style.left_bottom_corner + repeat(style.horizontal_bar, w + 2)
            + style.right_bottom_corner,
    }
}

/// Every row of the box: the top border, one row per line, the bottom border.
pub open spec fn box_rows(lines: Seq<Seq<char>>, style: BoxStyle) -> Seq<Seq<char>> {
    let w = interior_width(lines, style.caption);
    seq![top_row(style, w)] + lines.map_values(|l: Seq<char>| content_row(style, l, w)) + seq![
        bottom_row(style, w),
    ]
}

/// The rows joined by newlines, with no newline after the last.
pub open spec fn join_rows(rows: Seq<Seq<char>>) -> Seq<char>
    decreases rows.len(),
{
    if rows.len() == 0 {
        Seq::empty()
    } else if rows.len() == 1 {
        rows[0]
    } else {
        join_rows(rows.drop_last()) + seq!['\n'] + rows.last()
    }
}

/// The box drawn around `lines` in `style`.
pub open spec fn render(lines: Seq<Seq<char>>, style: BoxStyle) -> Seq<char> {
    join_rows(box_rows(lines, style))
}

/// `longest` is the maximum of the line lengths: no line is longer, and where
/// there is a line, one of them is exactly that long.
pub proof fn lemma_longest_is_max(lines: Seq<Seq<char>>)
    ensures
        forall|i: int| 0 <= i < lines.len() ==> #[trigger] lines[i].len() <= longest(lines),
        lines.len() == 0 ==> longest(lines) == 0,
        lines.len() > 0 ==> exists|i: int| 0 <= i < lines.len() && #[trigger] lines[i].len() == longest(lines),
    decreases lines.len(),
{
    if lines.len() > 0 {
        let init = lines.drop_last();
        lemma_longest_is_max(init);
        assert forall|i: int| 0 <= i < lines.len() implies #[trigger] lines[i].len() <= longest(lines) by {
            if i < init.len() {
                assert(init[i] == lines[i]);
            }
        }
        if lines.last().len() <= longest(init) && init.len() > 0 {
            let j = choose|j: int| 0 <= j < init.len() && #[trigger] init[j].len() == longest(init);
            assert(lines[j] == init[j]);
        } else {
            assert(lines[lines.len() - 1].len() == longest(lines));
        }
    }
}

/// Two more copies of `s` at the end.
proof fn lemma_repeat_two_more(s: Seq<char>, n: nat)
    ensures
        repeat(s, n + 2) =~= repeat(s, n) + s + s,
{
    assert(repeat(s, n + 1) == repeat(s, n) + s);
    assert(repeat(s, n + 2) == repeat(s, n + 1) + s);
}

/// Appends `s` to `out`, `n` times.
fn push_repeated(out: &mut String, s: &str, n: usize)
    ensures
        final(out)@ == old(out)@ + repeat(s@, n as nat),
{
    let mut i: usize = 0;
    while i < n
        invariant
            i <= n,
            out@ == old(out)@ + repeat(s@, i as nat),
        decreases n - i,
    {
        out.append(s);
        i = i + 1;
        assert(out@ =~= old(out)@ + repeat(s@, i as nat));
    }
}

/// The character length of the longest line.
fn longest_line(lines: &[String]) -> (r: usize)
    ensures
        r == longest(lines_view(lines@)),
{
    let mut m: usize = 0;
    let mut i: usize = 0;
    while i < lines.len()
        invariant
            i <= lines@.len(),
            m == longest(lines_view(lines@).take(i as int)),
        decreases lines@.len() - i,
    {
        let n = lines[i].as_str().unicode_len();
        assert(lines_view(lines@).take(i + 1).drop_last() =~= lines_view(lines@).take(i as int));
        if n > m {
            m = n;
        }
        i = i + 1;
    }
    assert(lines_view(lines@).take(i as int) =~= lines_view(lines@));
    m
}

/// Appends a border row: `left`, then `bar` across the interior and both
/// padding columns, then `right`.
fn push_border(out: &mut String, left: &str, bar: &str, right: &str, width: usize)
    ensures
        final(out)@ == old(out)@ + (left@ + repeat(bar@, (width + 2) as nat) + right@),
{
    out.append(left);
    push_repeated(out, bar, width);
    out.append(bar);
    out.append(bar);
    out.append(right);
    proof {
        lemma_repeat_two_more(bar@, width as nat);
    }
    assert(out@ =~= old(out)@ + (left@ + repeat(bar@, (width + 2) as nat) + right@));
}

/// Appends the row that shows `line` in an interior of width `width`.
fn push_content_row(out: &mut String, style: &TextBoxConfig, line: &str, width: usize)
    requires
        line@.len() <= width,
    ensures
        final(out)@ == old(out)@ + content_row(style@, line@, width as nat),
{
    proof {
        reveal_strlit(" ");
        assert(" "@ =~= seq![' ']);
    }
    let n = line.unicode_len();
    out.append(style.vertical_bar);
    out.append(" ");
    out.append(line);
    push_repeated(out, " ", width - n);
    out.append(" ");
    out.append(style.vertical_bar);
    assert(out@ =~= old(out)@ + content_row(style@, line@, width as nat));
}

/// Appends the bottom row that carries `caption`.
fn push_caption_row(out: &mut String, style: &TextBoxConfig, caption: &str, width: usize)
    requires
        caption@.len() <= width,
    ensures
        final(out)@ == old(out)@ + (seq!['<'] + caption@ + seq!['>'] + repeat(
            style.horizontal_bar@,
            (width - caption@.len() + 1) as nat,
        ) + style.right_bottom_corner@),
{
    proof {
        reveal_strlit("<");
        reveal_strlit(">");
        assert("<"@ =~= seq!['<']);
        assert(">"@ =~= seq!['>']);
    }
    let n = caption.unicode_len();
    out.append("<");
    out.append(caption);
    out.append(">");
    push_repeated(out, style.horizontal_bar, width - n);
    out.append(style.horizontal_bar);
    out.append(style.right_bottom_corner);
    assert(repeat(style.horizontal_bar@, (width - n + 1) as nat) == repeat(
        style.horizontal_bar@,
        (width - n) as nat,
    ) + style.horizontal_bar@);
    assert(out@ =~= old(out)@ + (seq!['<'] + caption@ + seq!['>'] + repeat(
        style.horizontal_bar@,
        (width - caption@.len() + 1) as nat,
    ) + style.right_bottom_corner@));
}

/// Generate a new message box using the provided lines, in the light style
/// without a caption.
pub fn generate_box(lines: &[String]) -> (r: String)
    ensures
        r@ == render(lines_view(lines@), light_style()),
{
    generate_with_config(lines, TextBoxConfig::default())
}

/// Generate a new message box in the light style, with the given caption on
/// the last line.
pub fn generate_with_caption(lines: &[String], last_line_caption: &str) -> (r: String)
    ensures
        r@ == render(lines_view(lines@), light_style().captioned(last_line_caption@)),
{
    generate_with_config(lines, TextBoxConfig::default().with_caption(last_line_caption))
}

/// Generate a new message box according the given config.
pub fn generate_with_config(lines: &[String], config: TextBoxConfig<'_>) -> (r: String)
    ensures
        r@ == render(lines_view(lines@), config@),
{
    let ghost view = lines_view(lines@);
    let ghost style = config@;
    let longest_len = longest_line(lines);
    let width = match config.last_line_caption {
        Some(c) => {
            let n = c.unicode_len();
            if n > longest_len {
                n
            } else {
                longest_len
            }
        },
        None => longest_len,
    };
    let ghost w = interior_width(view, style.caption);
    let ghost rows = box_rows(view, style);
    assert(width == w);

    let mut result = String::new();
    push_border(
        &mut result,
        config.left_top_corner,
        config.horizontal_bar,
        config.right_top_corner,
        width,
    );
    assert(result@ =~= top_row(style, w));
    assert(rows.take(1) =~= seq![top_row(style, w)]);

    let mut i: usize = 0;
    while i < lines.len()
        invariant
            i <= lines@.len(),
            view == lines_view(lines@),
            style == config@,
            w == interior_width(view, style.caption),
            width == w,
            rows == box_rows(view, style),
            result@ == join_rows(rows.take(i + 1)),
        decreases lines@.len() - i,
    {
        let ghost before = result@;
        proof {
            reveal_strlit("\n");
            assert("\n"@ =~= seq!['\n']);
            lemma_longest_is_max(view);
            assert(view[i as int] == lines@[i as int]@);
        }
        result.append("\n");
        push_content_row(&mut result, &config, lines[i].as_str(), width);
        assert(rows.take(i + 2).drop_last() =~= rows.take(i + 1));
        assert(rows[i + 1] == content_row(style, view[i as int], w));
        assert(result@ =~= before + seq!['\n'] + rows.take(i + 2).last());
        i = i + 1;
    }

    let ghost before = result@;
    proof {
        reveal_strlit("\n");
        assert("\n"@ =~= seq!['\n']);
    }
    result.append("\n");
    match config.last_line_caption {
        Some(c) => push_caption_row(&mut result, &config, c, width),
        None => push_border(
            &mut result,
            config.left_bottom_corner,
            config.horizontal_bar,
            config.right_bottom_corner,
            width,
        ),
    }
    assert(rows.drop_last() =~= rows.take(lines@.len() + 1 as int));
    assert(result@ =~= before + seq!['\n'] + rows.last());
    result
}

} // verus!
