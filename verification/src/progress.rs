//! One-shot progress-bar lines. The bar is 40 cells wide; the caller supplies
//! the filled cell count, the percentage and the gradient colour (all derived
//! from a floating-point ratio outside this library).

use vstd::prelude::*;

use crate::capabilities::Capabilities;
use crate::panel::{push_repeat, repeat};
use crate::spans::{render_spans, spans_rendered, views, Span};
use crate::emit::{lemma_decimal_digits, lemma_plain_prefix, lemma_visible_shift};
use crate::text::{decimal, esc, push_decimal};
use crate::width::{csi_end, escape_end, escape_free, is_csi_final, stripped, visible_from};

verus! {

/// Width of a progress bar in cells.
pub const BAR_WIDTH: usize = 40;

/// Style of a progress bar.
#[derive(Debug, Clone, Copy, PartialEq, Eq, Structural)]
pub enum ProgressStyle {
    /// Unicode heavy blocks with a truecolor gradient when available; the
    /// ASCII bar otherwise.
    Blocks,
    /// Always the ASCII bar: `=` for filled cells, `-` for empty ones.
    Ascii,
}

impl Default for ProgressStyle {
    fn default() -> (s: Self)
        ensures
            s == ProgressStyle::Blocks,
    {
        ProgressStyle::Blocks
    }
}

/// Whether the unicode block bar is used.
pub open spec fn unicode_bar(caps: Capabilities, style: ProgressStyle) -> bool {
    caps.unicode_width >= 2 && style != ProgressStyle::Ascii
}

/// The bar itself: a coloured block bar on truecolor unicode terminals, a
/// plain block bar on other unicode terminals, `[===---]` otherwise.
pub open spec fn bar_text(caps: Capabilities, filled: nat, rgb: (u8, u8, u8), style: ProgressStyle) -> Seq<
    char,
> {
    let empty = (BAR_WIDTH - filled) as nat;
    if caps.truecolor && unicode_bar(caps, style) {
        seq!['\x1b', '[', '3', '8', ';', '2', ';'] + decimal(rgb.0 as nat) + seq![';'] + decimal(
            rgb.1 as nat,
        ) + seq![';'] + decimal(rgb.2 as nat) + seq!['m'] + repeat('█', filled) + seq![
            '\x1b',
            '[',
            '0',
            'm',
        ] + seq!['\x1b', '[', '2', 'm'] + repeat('░', empty) + seq!['\x1b', '[', '0', 'm']
    } else if unicode_bar(caps, style) {
        repeat('█', filled) + repeat('░', empty)
    } else {
        seq!['['] + repeat('=', filled) + repeat('-', empty) + seq![']']
    }
}

/// An SGR sequence `ESC [ params m`.
pub open spec fn sgr(params: Seq<char>) -> Seq<char> {
    seq!['\x1b', '['] + params + seq!['m']
}

/// Whether `params` holds only digits and `;`, as SGR parameters do.
pub open spec fn sgr_params(params: Seq<char>) -> bool {
    forall|k: int| 0 <= k < params.len() ==> ('0' <= #[trigger] params[k] <= '9' || params[k] == ';')
}

proof fn lemma_csi_end_at(s: Seq<char>, j: int, k: int)
    requires
        0 <= j <= k < s.len(),
        forall|m: int| j <= m < k ==> !is_csi_final(#[trigger] s[m]),
        is_csi_final(s[k]),
    ensures
        csi_end(s, j) == k + 1,
    decreases k - j,
{
    if j < k {
        lemma_csi_end_at(s, j + 1, k);
    }
}

/// An SGR sequence leaves nothing visible: stripping it and what follows
/// gives what follows, stripped.
proof fn lemma_sgr_skipped(params: Seq<char>, rest: Seq<char>)
    requires
        sgr_params(params),
    ensures
        visible_from(sgr(params) + rest, 0) == visible_from(rest, 0),
{
    let p = sgr(params);
    let s = p + rest;
    let k: int = 2 + params.len() as int;
    assert forall|m: int| 2 <= m < k implies !is_csi_final(#[trigger] s[m]) by {
        assert(s[m] == params[m - 2]);
    }
    assert(s[k] == 'm');
    lemma_csi_end_at(s, 2, k);
    assert(s[0] == esc() && s[1] == '[');
    assert(escape_end(s, 0) == p.len());
    lemma_visible_shift(p, rest, 0);
}

/// The SGR parameters selecting truecolor `rgb` as foreground.
pub open spec fn rgb_params(rgb: (u8, u8, u8)) -> Seq<char> {
    seq!['3', '8', ';', '2', ';'] + decimal(rgb.0 as nat) + seq![';'] + decimal(rgb.1 as nat) + seq![';']
        + decimal(rgb.2 as nat)
}

proof fn lemma_rgb_params(rgb: (u8, u8, u8))
    ensures
        sgr_params(rgb_params(rgb)),
{
    let params = rgb_params(rgb);
    let d0 = decimal(rgb.0 as nat);
    let d1 = decimal(rgb.1 as nat);
    let d2 = decimal(rgb.2 as nat);
    lemma_decimal_digits(rgb.0 as nat);
    lemma_decimal_digits(rgb.1 as nat);
    lemma_decimal_digits(rgb.2 as nat);
    assert forall|k: int| 0 <= k < params.len() implies ('0' <= #[trigger] params[k] <= '9' || params[k]
        == ';') by {
        if k >= 5 && k < 5 + d0.len() {
            assert(params[k] == d0[k - 5]);
        } else if k >= 6 + d0.len() && k < 6 + d0.len() + d1.len() {
            assert(params[k] == d1[k - 6 - d0.len()]);
        } else if k >= 7 + d0.len() + d1.len() {
            assert(params[k] == d2[k - 7 - d0.len() - d1.len()]);
        }
    }
}

/// A truecolor bar, `colour a reset dim b reset`, strips to `a + b`.
proof fn lemma_coloured_cells_stripped(params: Seq<char>, a: Seq<char>, b: Seq<char>)
    requires
        sgr_params(params),
        escape_free(a),
        escape_free(b),
    ensures
        stripped(sgr(params) + a + sgr(seq!['0']) + sgr(seq!['2']) + b + sgr(seq!['0'])) == a + b,
{
    assert(sgr_params(seq!['0'])) by {
        assert forall|k: int| 0 <= k < 1 implies ('0' <= #[trigger] seq!['0'][k] <= '9' || seq!['0'][k]
            == ';') by {}
    }
    assert(sgr_params(seq!['2'])) by {
        assert forall|k: int| 0 <= k < 1 implies ('0' <= #[trigger] seq!['2'][k] <= '9' || seq!['2'][k]
            == ';') by {}
    }
    let empty = Seq::<char>::empty();
    let r3 = sgr(seq!['0']) + empty;
    let r2 = sgr(seq!['2']) + (b + r3);
    let r1 = sgr(seq!['0']) + r2;
    let t = sgr(params) + a + sgr(seq!['0']) + sgr(seq!['2']) + b + sgr(seq!['0']);
    assert(t =~= sgr(params) + (a + r1));
    lemma_sgr_skipped(params, a + r1);
    lemma_plain_prefix(a, r1);
    lemma_sgr_skipped(seq!['0'], r2);
    lemma_sgr_skipped(seq!['2'], b + r3);
    lemma_plain_prefix(b, r3);
    lemma_sgr_skipped(seq!['0'], empty);
    assert(visible_from(empty, 0) == empty);
    assert(b + empty =~= b);
}

proof fn lemma_repeat_plain(c: char, n: nat)
    requires
        c != esc(),
    ensures
        escape_free(repeat(c, n)),
        repeat(c, n).len() == n,
        forall|k: int| 0 <= k < n ==> #[trigger] repeat(c, n)[k] == c,
{
}

/// The bar holds exactly `BAR_WIDTH` cells once its colour sequences are
/// stripped: `filled` filled glyphs, then `BAR_WIDTH - filled` empty ones;
/// the ASCII bar adds its brackets around them. This holds on every terminal
/// and in every style, the truecolor bar included.
pub proof fn bar_holds_bar_width_cells(
    caps: Capabilities,
    filled: nat,
    rgb: (u8, u8, u8),
    style: ProgressStyle,
)
    requires
        filled <= BAR_WIDTH,
    ensures
        ({
            let v = stripped(bar_text(caps, filled, rgb, style));
            let o: int = if unicode_bar(caps, style) {
                0
            } else {
                1
            };
            let full = if unicode_bar(caps, style) {
                '█'
            } else {
                '='
            };
            let empty = if unicode_bar(caps, style) {
                '░'
            } else {
                '-'
            };
            &&& v.len() == BAR_WIDTH + 2 * o
            &&& forall|k: int| 0 <= k < BAR_WIDTH ==> #[trigger] v[o + k] == if k < filled {
                full
            } else {
                empty
            }
            &&& o == 1 ==> v[0] == '[' && v[BAR_WIDTH + 1] == ']'
        }),
{
    let e = (BAR_WIDTH - filled) as nat;
    let u = unicode_bar(caps, style);
    let full = if u { '█' } else { '=' };
    let emp = if u { '░' } else { '-' };
    lemma_repeat_plain(full, filled);
    lemma_repeat_plain(emp, e);
    let cells = repeat(full, filled) + repeat(emp, e);
    assert(escape_free(cells));
    assert(forall|k: int| 0 <= k < BAR_WIDTH ==> #[trigger] cells[k] == if k < filled { full } else { emp }) by {
        assert forall|k: int| 0 <= k < BAR_WIDTH implies #[trigger] cells[k] == if k < filled {
            full
        } else {
            emp
        } by {
            if k >= filled {
                assert(cells[k] == repeat(emp, e)[k - filled]);
            }
        }
    }
    let t = bar_text(caps, filled, rgb, style);
    if caps.truecolor && u {
        lemma_rgb_params(rgb);
        lemma_coloured_cells_stripped(rgb_params(rgb), repeat(full, filled), repeat(emp, e));
        assert(t =~= sgr(rgb_params(rgb)) + repeat(full, filled) + sgr(seq!['0']) + sgr(seq!['2']) + repeat(
            emp,
            e,
        ) + sgr(seq!['0']));
    } else if u {
        assert(t =~= cells);
        crate::width::plain_text_is_unchanged(cells);
    } else {
        assert(t =~= seq!['['] + cells + seq![']']);
        assert(escape_free(t));
        crate::width::plain_text_is_unchanged(t);
        assert forall|k: int| 0 <= k < BAR_WIDTH implies #[trigger] t[1 + k] == if k < filled {
            full
        } else {
            emp
        } by {
            assert(t[1 + k] == cells[k]);
        }
    }
}

/// `digits` right-aligned in a field of three characters.
pub open spec fn right3(digits: Seq<char>) -> Seq<char> {
    if digits.len() >= 3 {
        digits
    } else {
        repeat(' ', (3 - digits.len()) as nat) + digits
    }
}

/// The full line: bar, ` NNN%`, then two spaces and the label when there is
/// one, and a newline.
pub open spec fn progress_text(
    caps: Capabilities,
    filled: nat,
    pct: u32,
    rgb: (u8, u8, u8),
    style: ProgressStyle,
    label: Option<Seq<char>>,
) -> Seq<char> {
    bar_text(caps, filled, rgb, style) + seq![' '] + right3(decimal(pct as nat)) + seq!['%'] + match label {
        Some(l) => seq![' ', ' '] + l,
        None => seq![],
    } + seq!['\n']
}

fn push_sgr_close(s: &mut String)
    ensures
        final(s)@ == old(s)@ + seq!['\x1b', '[', '0', 'm'],
{
    s.push('\x1b');
    s.push('[');
    s.push('0');
    s.push('m');
}

fn colour_open(rgb: (u8, u8, u8)) -> (s: String)
    ensures
        s@ == seq!['\x1b', '[', '3', '8', ';', '2', ';'] + decimal(rgb.0 as nat) + seq![';'] + decimal(
            rgb.1 as nat,
        ) + seq![';'] + decimal(rgb.2 as nat) + seq!['m'],
{
    let mut s = String::new();
    s.push('\x1b');
    s.push('[');
    s.push('3');
    s.push('8');
    s.push(';');
    s.push('2');
    s.push(';');
    push_decimal(&mut s, rgb.0 as u64);
    s.push(';');
    push_decimal(&mut s, rgb.1 as u64);
    s.push(';');
    push_decimal(&mut s, rgb.2 as u64);
    s.push('m');
    s
}

fn bar_string(caps: &Capabilities, filled: usize, rgb: (u8, u8, u8), style: ProgressStyle) -> (s: String)
    requires
        filled <= BAR_WIDTH,
    ensures
        s@ == bar_text(*caps, filled as nat, rgb, style),
{
    let empty = BAR_WIDTH - filled;
    let unicode_ok = caps.unicode_width >= 2 && style != ProgressStyle::Ascii;
    let color_ok = caps.truecolor && unicode_ok;
    if color_ok {
        let mut s = colour_open(rgb);
        push_repeat(&mut s, '█', filled);
        push_sgr_close(&mut s);
        s.push('\x1b');
        s.push('[');
        s.push('2');
        s.push('m');
        push_repeat(&mut s, '░', empty);
        push_sgr_close(&mut s);
        assert(s@ =~= bar_text(*caps, filled as nat, rgb, style));
        s
    } else if unicode_ok {
        let mut s = String::new();
        push_repeat(&mut s, '█', filled);
        push_repeat(&mut s, '░', empty);
        assert(s@ =~= bar_text(*caps, filled as nat, rgb, style));
        s
    } else {
        let mut s = String::new();
        s.push('[');
        push_repeat(&mut s, '=', filled);
        push_repeat(&mut s, '-', empty);
        s.push(']');
        assert(s@ =~= bar_text(*caps, filled as nat, rgb, style));
        s
    }
}

fn push_percent(s: &mut String, pct: u32)
    ensures
        final(s)@ == old(s)@ + right3(decimal(pct as nat)) + seq!['%'],
{
    let mut digits = String::new();
    push_decimal(&mut digits, pct as u64);
    assert(digits@ =~= decimal(pct as nat));
    let n = digits.as_str().unicode_len();
    if n < 3 {
        push_repeat(s, ' ', 3 - n);
    }
    s.push_str(digits.as_str());
    s.push('%');
    assert(s@ =~= old(s)@ + right3(decimal(pct as nat)) + seq!['%']);
}

/// Renders one progress-bar line with `filled` of the 40 cells filled, the
/// percentage `pct`, the gradient colour `rgb` (used on truecolor terminals)
/// and an optional label.
pub fn progress_line(
    caps: &Capabilities,
    filled: usize,
    pct: u32,
    rgb: (u8, u8, u8),
    style: ProgressStyle,
    label: Option<&str>,
) -> (s: String)
    requires
        filled <= BAR_WIDTH,
    ensures
        s@ == progress_text(
            *caps,
            filled as nat,
            pct,
            rgb,
            style,
            match label {
                Some(l) => Some(l@),
                None => None,
            },
        ),
{
    let mut s = bar_string(caps, filled, rgb, style);
    s.push(' ');
    push_percent(&mut s, pct);
    match label {
        Some(l) => {
            s.push(' ');
            s.push(' ');
            s.push_str(l);
        },
        None => {},
    }
    s.push('\n');
    assert(s@ =~= progress_text(
        *caps,
        filled as nat,
        pct,
        rgb,
        style,
        match label {
            Some(l) => Some(l@),
            None => None,
        },
    ));
    s
}

/// The label a span sequence gives a progress line: its rendering, or none
/// when that is empty.
pub fn spans_label(caps: &Capabilities, label: &[Span]) -> (r: Option<String>)
    ensures
        match r {
            Some(t) => t@ == spans_rendered(*caps, views(label@)) && t@.len() > 0,
            None => spans_rendered(*caps, views(label@)).len() == 0,
        },
{
    let rendered = render_spans(caps, label);
    if rendered.as_str().is_empty() {
        None
    } else {
        Some(rendered)
    }
}

/// However full, a plain bar spans its 40 cells: the unicode bar without
/// colour is exactly 40 glyphs, the ASCII bar 40 glyphs between its two
/// brackets.
pub proof fn bar_spans_full_width(caps: Capabilities, filled: nat, rgb: (u8, u8, u8), style: ProgressStyle)
    requires
        filled <= BAR_WIDTH,
    ensures
        unicode_bar(caps, style) && !caps.truecolor ==> bar_text(caps, filled, rgb, style).len() == BAR_WIDTH,
        !unicode_bar(caps, style) ==> bar_text(caps, filled, rgb, style).len() == BAR_WIDTH + 2,
{
}

} // verus!
