//! Box-drawn status panels with grapheme-correct width calculation and
//! optional inline OSC 8 hyperlinks via [`Span`].

use vstd::prelude::*;

use crate::capabilities::Capabilities;
use crate::spans::{render_spans, spans_cells, spans_rendered, spans_width, views, Span, SpanView};
use crate::text::{utf8, write_str};
use crate::width::{capped, visible_cells, visible_width};
use crate::EmitError;

verus! {

/// Border drawing style of a panel.
#[derive(Debug, Clone, Copy, PartialEq, Eq, Structural)]
pub enum BorderStyle {
    /// `╭╮╰╯` corners.
    Rounded,
    /// `┌┐└┘` corners.
    Square,
    /// `+` corners, `-` and `|` lines.
    Ascii,
}

impl Default for BorderStyle {
    fn default() -> (s: Self)
        ensures
            s == BorderStyle::Rounded,
    {
        BorderStyle::Rounded
    }
}

/// The glyphs a panel is drawn with.
#[derive(Debug, Clone, Copy, PartialEq, Eq, Structural)]
pub struct Glyphs {
    pub tl: char,
    pub tr: char,
    pub bl: char,
    pub br: char,
    pub h: char,
    pub v: char,
}

/// Box glyphs for a terminal's unicode support and a border style: unicode
/// corners need `unicode_width >= 2` and a non-ASCII style; otherwise ASCII.
pub open spec fn glyph_set(unicode_width: u16, style: BorderStyle) -> Glyphs {
    let unicode = unicode_width >= 2 && style != BorderStyle::Ascii;
    if unicode && style == BorderStyle::Rounded {
        Glyphs { tl: '╭', tr: '╮', bl: '╰', br: '╯', h: '─', v: '│' }
    } else if unicode && style == BorderStyle::Square {
        Glyphs { tl: '┌', tr: '┐', bl: '└', br: '┘', h: '─', v: '│' }
    } else {
        Glyphs { tl: '+', tr: '+', bl: '+', br: '+', h: '-', v: '|' }
    }
}

/// The glyphs a panel is drawn with on `caps` in `style`.
pub fn glyphs(caps: &Capabilities, style: BorderStyle) -> (g: Glyphs)
    ensures
        g == glyph_set(caps.unicode_width, style),
{
    let unicode = caps.unicode_width >= 2 && style != BorderStyle::Ascii;
    if unicode && style == BorderStyle::Rounded {
        Glyphs { tl: '╭', tr: '╮', bl: '╰', br: '╯', h: '─', v: '│' }
    } else if unicode && style == BorderStyle::Square {
        Glyphs { tl: '┌', tr: '┐', bl: '└', br: '┘', h: '─', v: '│' }
    } else {
        Glyphs { tl: '+', tr: '+', bl: '+', br: '+', h: '-', v: '|' }
    }
}

/// `n` copies of `c`.
pub open spec fn repeat(c: char, n: nat) -> Seq<char> {
    Seq::new(n, |_i: int| c)
}

/// `a + b`, capped at `usize::MAX`.
pub open spec fn sat_add(a: usize, b: usize) -> usize {
    if a + b <= usize::MAX {
        (a + b) as usize
    } else {
        usize::MAX
    }
}

/// `a - b`, floored at zero.
pub open spec fn sat_sub(a: usize, b: usize) -> usize {
    if a >= b {
        (a - b) as usize
    } else {
        0
    }
}

/// The larger of two widths.
pub open spec fn max_usize(a: usize, b: usize) -> usize {
    if a >= b {
        a
    } else {
        b
    }
}

/// The views of the rows of a panel body.
pub open spec fn row_views(rows: Seq<Vec<Span>>) -> Seq<Seq<SpanView>> {
    rows.map_values(|r: Vec<Span>| views(r@))
}

/// Width of a body row.
pub open spec fn row_width(row: Seq<SpanView>) -> usize {
    capped(spans_cells(row))
}

/// The widest body row (zero without rows).
pub open spec fn widest_row(rows: Seq<Seq<SpanView>>) -> usize
    decreases rows.len(),
{
    if rows.len() == 0 {
        0
    } else {
        max_usize(widest_row(rows.drop_last()), row_width(rows.last()))
    }
}

/// Inner width of a panel: the widest of title and rows, at least 12.
pub open spec fn panel_inner(title: Seq<char>, rows: Seq<Seq<SpanView>>) -> usize {
    max_usize(max_usize(capped(visible_cells(title)), widest_row(rows)), 12)
}

proof fn lemma_widest_row(rows: Seq<Seq<SpanView>>, i: int)
    requires
        0 <= i < rows.len(),
    ensures
        row_width(rows[i]) <= widest_row(rows),
    decreases rows.len(),
{
    if i < rows.len() - 1 {
        lemma_widest_row(rows.drop_last(), i);
        assert(rows.drop_last()[i] == rows[i]);
    }
}

/// Every body row is padded to the panel's inner width: the row's cells and
/// its padding add up to the inner width, so the right borders line up.
pub proof fn rows_pad_to_inner_width(title: Seq<char>, rows: Seq<Seq<SpanView>>, i: int)
    requires
        0 <= i < rows.len(),
    ensures
        row_width(rows[i]) <= panel_inner(title, rows),
        row_width(rows[i]) + sat_sub(panel_inner(title, rows), row_width(rows[i])) == panel_inner(
            title,
            rows,
        ),
{
    lemma_widest_row(rows, i);
}

/// The inner width is never below 12 cells and holds the title and every row.
pub proof fn inner_width_holds_title_and_rows(title: Seq<char>, rows: Seq<Seq<SpanView>>)
    ensures
        panel_inner(title, rows) >= 12,
        panel_inner(title, rows) >= capped(visible_cells(title)),
        forall|i: int| 0 <= i < rows.len() ==> #[trigger] row_width(rows[i]) <= panel_inner(title, rows),
{
    assert forall|i: int| 0 <= i < rows.len() implies #[trigger] row_width(rows[i]) <= panel_inner(
        title,
        rows,
    ) by {
        lemma_widest_row(rows, i);
    }
}

/// Between its corners the top border spans the panel's total width, like
/// the bottom border, whenever the title segment ` title ` leaves room for
/// the leading rule glyph; a title as wide as the inner width makes the top
/// border one cell wider.
pub proof fn top_border_spans_total(title: Seq<char>, total: usize)
    ensures
        ({
            let segw = capped(visible_cells(seq![' '] + title + seq![' ']));
            1 + segw <= total ==> 1 + segw + sat_sub(total, sat_add(1, segw)) == total
        }),
{
}

/// The top border: `╭─ title ──…╮`.
pub open spec fn top_line(g: Glyphs, title: Seq<char>, total: usize) -> Seq<char> {
    let seg = seq![' '] + title + seq![' '];
    let remaining = sat_sub(total, sat_add(1, capped(visible_cells(seg))));
    seq![g.tl, g.h] + seg + repeat(g.h, remaining as nat) + seq![g.tr, '\n']
}

/// The top border lines up with the bottom one: whenever the title segment
/// ` title ` fits, the rule glyphs after it, the segment's visible cells and
/// the leading rule glyph add up to the bottom border's `total` rule glyphs.
/// The segment is measured in terminal cells, not characters.
pub proof fn top_border_matches_bottom(g: Glyphs, title: Seq<char>, total: usize)
    ensures
        ({
            let seg = seq![' '] + title + seq![' '];
            let segw = capped(visible_cells(seg));
            1 + segw <= total ==> exists|r: nat|
                top_line(g, title, total) == seq![g.tl, g.h] + seg + repeat(g.h, r) + seq![g.tr, '\n'] && 1
                    + segw + r == total
        }),
        bottom_line(g, total) == seq![g.bl] + repeat(g.h, total as nat) + seq![g.br, '\n'],
{
    let seg = seq![' '] + title + seq![' '];
    let segw = capped(visible_cells(seg));
    if 1 + segw <= total {
        let r = sat_sub(total, sat_add(1, segw)) as nat;
        assert(top_line(g, title, total) == seq![g.tl, g.h] + seg + repeat(g.h, r) + seq![g.tr, '\n']);
        assert(1 + segw + r == total);
    }
}

/// One body row: `│ <rendered spans><padding> │`.
pub open spec fn body_line(caps: Capabilities, g: Glyphs, inner: usize, row: Seq<SpanView>) -> Seq<char> {
    seq![g.v, ' '] + spans_rendered(caps, row) + repeat(' ', sat_sub(inner, row_width(row)) as nat)
        + seq![' ', g.v, '\n']
}

/// All body rows.
pub open spec fn body_lines(caps: Capabilities, g: Glyphs, inner: usize, rows: Seq<Seq<SpanView>>) -> Seq<
    char,
>
    decreases rows.len(),
{
    if rows.len() == 0 {
        seq![]
    } else {
        body_lines(caps, g, inner, rows.drop_last()) + body_line(caps, g, inner, rows.last())
    }
}

/// The bottom border: `╰──…╯`.
pub open spec fn bottom_line(g: Glyphs, total: usize) -> Seq<char> {
    seq![g.bl] + repeat(g.h, total as nat) + seq![g.br, '\n']
}

/// The full text of a panel.
pub open spec fn panel_text(
    caps: Capabilities,
    title: Seq<char>,
    rows: Seq<Seq<SpanView>>,
    style: BorderStyle,
) -> Seq<char> {
    let g = glyph_set(caps.unicode_width, style);
    let inner = panel_inner(title, rows);
    let total = sat_add(inner, 2);
    top_line(g, title, total) + body_lines(caps, g, inner, rows) + bottom_line(g, total)
}

/// Appends `n` copies of `c` to `out`.
pub(crate) fn push_repeat(out: &mut String, c: char, n: usize)
    ensures
        final(out)@ == old(out)@ + repeat(c, n as nat),
{
    let mut i: usize = 0;
    while i < n
        invariant
            i <= n,
            out@ == old(out)@ + repeat(c, i as nat),
        decreases n - i,
    {
        out.push(c);
        assert(repeat(c, (i + 1) as nat) =~= repeat(c, i as nat).push(c));
        i += 1;
    }
}

fn widest(rows: &[Vec<Span>]) -> (w: usize)
    ensures
        w == widest_row(row_views(rows@)),
{
    let mut w: usize = 0;
    let mut i: usize = 0;
    while i < rows.len()
        invariant
            i <= rows@.len(),
            w == widest_row(row_views(rows@.take(i as int))),
        decreases rows@.len() - i,
    {
        let rw = spans_width(rows[i].as_slice());
        assert(row_views(rows@.take(i + 1)).drop_last() =~= row_views(rows@.take(i as int)));
        if rw > w {
            w = rw;
        }
        i += 1;
    }
    assert(rows@.take(rows@.len() as int) =~= rows@);
    w
}

fn push_top(out: &mut String, g: Glyphs, title: &str, total: usize)
    ensures
        final(out)@ == old(out)@ + top_line(g, title@, total),
{
    out.push(g.tl);
    out.push(g.h);
    let mut seg = String::new();
    seg.push(' ');
    seg.push_str(title);
    seg.push(' ');
    assert(seg@ =~= seq![' '] + title@ + seq![' ']);
    let seg_w = visible_width(seg.as_str());
    let lead: usize = if seg_w < usize::MAX {
        1 + seg_w
    } else {
        usize::MAX
    };
    let remaining: usize = if total >= lead {
        total - lead
    } else {
        0
    };
    out.push_str(seg.as_str());
    push_repeat(out, g.h, remaining);
    out.push(g.tr);
    out.push('\n');
    assert(out@ =~= old(out)@ + top_line(g, title@, total));
}

fn push_body(out: &mut String, caps: &Capabilities, g: Glyphs, inner: usize, rows: &[Vec<Span>])
    ensures
        final(out)@ == old(out)@ + body_lines(*caps, g, inner, row_views(rows@)),
{
    let mut i: usize = 0;
    while i < rows.len()
        invariant
            i <= rows@.len(),
            out@ == old(out)@ + body_lines(*caps, g, inner, row_views(rows@.take(i as int))),
        decreases rows@.len() - i,
    {
        let row = rows[i].as_slice();
        let w = spans_width(row);
        let rendered = render_spans(caps, row);
        let pad: usize = if inner >= w {
            inner - w
        } else {
            0
        };
        let ghost before = out@;
        out.push(g.v);
        out.push(' ');
        out.push_str(rendered.as_str());
        push_repeat(out, ' ', pad);
        out.push(' ');
        out.push(g.v);
        out.push('\n');
        assert(out@ =~= before + body_line(*caps, g, inner, views(rows@[i as int]@)));
        assert(row_views(rows@.take(i + 1)).drop_last() =~= row_views(rows@.take(i as int)));
        assert(row_views(rows@.take(i + 1)).last() == views(rows@[i as int]@));
        i += 1;
    }
    assert(rows@.take(rows@.len() as int) =~= rows@);
}

/// The text of a panel titled `title` whose body rows are span sequences.
pub fn panel_string(caps: &Capabilities, title: &str, rows: &[Vec<Span>], border_style: BorderStyle) -> (s:
    String)
    ensures
        s@ == panel_text(*caps, title@, row_views(rows@), border_style),
{
    let g = glyphs(caps, border_style);
    let title_w = visible_width(title);
    let rows_w = widest(rows);
    let content_width = if title_w >= rows_w {
        title_w
    } else {
        rows_w
    };
    let inner = if content_width >= 12 {
        content_width
    } else {
        12
    };
    let total: usize = if inner <= usize::MAX - 2 {
        inner + 2
    } else {
        usize::MAX
    };
    let mut s = String::new();
    push_top(&mut s, g, title, total);
    push_body(&mut s, caps, g, inner, rows);
    s.push(g.bl);
    push_repeat(&mut s, g.h, total);
    s.push(g.br);
    s.push('\n');
    assert(s@ =~= panel_text(*caps, title@, row_views(rows@), border_style));
    s
}

/// Emits a status panel whose body rows are sequences of spans (text and
/// links), appending its UTF-8 text to `out`.
pub fn emit_panel_spans(
    out: &mut Vec<u8>,
    caps: &Capabilities,
    title: &str,
    rows: &[Vec<Span>],
    border_style: BorderStyle,
) -> (r: Result<(), EmitError>)
    ensures
        r is Ok,
        final(out)@ == old(out)@ + utf8(panel_text(*caps, title@, row_views(rows@), border_style)),
{
    let s = panel_string(caps, title, rows, border_style);
    write_str(out, s.as_str());
    Ok(())
}

/// Body rows holding one plain-text span per line.
pub open spec fn line_rows(lines: Seq<&str>) -> Seq<Seq<SpanView>> {
    lines.map_values(|l: &str| seq![SpanView::Text(l@)])
}

/// Emits a status panel from plain string lines, appending its UTF-8 text to
/// `out`.
pub fn emit_panel(
    out: &mut Vec<u8>,
    caps: &Capabilities,
    title: &str,
    lines: &[&str],
    border_style: BorderStyle,
) -> (r: Result<(), EmitError>)
    ensures
        r is Ok,
        final(out)@ == old(out)@ + utf8(panel_text(*caps, title@, line_rows(lines@), border_style)),
{
    let mut rows: Vec<Vec<Span>> = Vec::new();
    let mut i: usize = 0;
    while i < lines.len()
        invariant
            i <= lines@.len(),
            rows@.len() == i,
            row_views(rows@) =~= line_rows(lines@.take(i as int)),
        decreases lines@.len() - i,
    {
        let row = vec![Span::text(lines[i])];
        assert(views(row@) =~= seq![SpanView::Text(lines@[i as int]@)]);
        let ghost prev = rows@;
        rows.push(row);
        assert(rows@ == prev.push(row));
        assert forall|k: int| 0 <= k < rows@.len() implies #[trigger] row_views(rows@)[k] == line_rows(
            lines@.take(i + 1),
        )[k] by {
            assert(row_views(rows@)[k] == views(rows@[k]@));
            if k < i {
                assert(rows@[k] == prev[k]);
                assert(row_views(prev)[k] == views(prev[k]@));
                assert(row_views(rows@)[k] == row_views(prev)[k]);
                assert(line_rows(lines@.take(i + 1))[k] == line_rows(lines@.take(i as int))[k]);
            }
        }
        assert(row_views(rows@) =~= line_rows(lines@.take(i + 1)));
        i += 1;
    }
    assert(lines@.take(lines@.len() as int) =~= lines@);
    emit_panel_spans(out, caps, title, rows.as_slice(), border_style)
}

} // verus!
