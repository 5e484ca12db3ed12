//! OSC sequences (hyperlinks, clipboard, task markers) with tmux passthrough.
//!
//! Every OSC/APC sequence destined for a terminal running under tmux is
//! DCS-wrapped so tmux forwards it to the outer terminal:
//!
//! ```text
//! ESC P tmux ; <inner with every ESC doubled> ESC \
//! ```

use vstd::prelude::*;

use crate::b64::{base64_len, base64_shape, base64_standard, encode_standard, is_base64_char};
use crate::text::{chars_of, decimal, decimal_signed, digit_char, esc, push_decimal_signed, st, utf8};
use crate::width::{
    csi_end, escape_end, escape_free, is_string_introducer, lemma_visible_from_plain, st_at,
    st_end, stripped, visible_from,
};

verus! {

/// `inner` with every ESC doubled.
pub open spec fn doubled_escapes(inner: Seq<char>) -> Seq<char>
    decreases inner.len(),
{
    if inner.len() == 0 {
        seq![]
    } else {
        doubled_escapes(inner.drop_last()) + if inner.last() == esc() {
            seq![esc(), esc()]
        } else {
            seq![inner.last()]
        }
    }
}

/// `ESC P tmux ;`, the opening of a tmux passthrough.
pub open spec fn tmux_open() -> Seq<char> {
    seq!['\x1b', 'P', 't', 'm', 'u', 'x', ';']
}

/// What is sent for `inner`: unchanged outside tmux, DCS-wrapped inside.
pub open spec fn tmux_wrapped(inner: Seq<char>, in_tmux: bool) -> Seq<char> {
    if in_tmux {
        tmux_open() + doubled_escapes(inner) + st()
    } else {
        inner
    }
}

/// Wraps a raw escape sequence for tmux DCS passthrough when `in_tmux` holds;
/// otherwise returns it unchanged.
pub fn wrap_for_tmux_with(inner: &str, in_tmux: bool) -> (s: String)
    ensures
        s@ == tmux_wrapped(inner@, in_tmux),
{
    if !in_tmux {
        return inner.to_owned();
    }
    let chars = chars_of(inner);
    let mut out = String::new();
    out.push_str("\x1bPtmux;");
    proof {
        reveal_strlit("\x1bPtmux;");
        assert("\x1bPtmux;"@ =~= tmux_open());
    }
    let n = chars.len();
    let mut i: usize = 0;
    while i < n
        invariant
            n == chars@.len(),
            chars@ == inner@,
            i <= n,
            out@ == tmux_open() + doubled_escapes(chars@.take(i as int)),
        decreases n - i,
    {
        let c = chars[i];
        if c == '\x1b' {
            out.push('\x1b');
            out.push('\x1b');
        } else {
            out.push(c);
        }
        assert(chars@.take(i + 1).drop_last() =~= chars@.take(i as int));
        i += 1;
    }
    assert(chars@.take(n as int) =~= chars@);
    out.push_str("\x1b\\");
    proof {
        reveal_strlit("\x1b\\");
        assert("\x1b\\"@ =~= st());
    }
    out
}

/// `ESC ] 8 ; ; url ESC \`, the opening of an OSC 8 hyperlink.
pub open spec fn osc8_open(url: Seq<char>) -> Seq<char> {
    seq!['\x1b', ']', '8', ';', ';'] + url + st()
}

/// `ESC ] 8 ; ; ESC \`, the closing of an OSC 8 hyperlink.
pub open spec fn osc8_close() -> Seq<char> {
    seq!['\x1b', ']', '8', ';', ';'] + st()
}

/// The hyperlink text for `url` and `text`: `text` alone when hyperlinks are
/// unsupported; otherwise the OSC 8 open and close sequences (each wrapped
/// for tmux when inside tmux) around `text`.
pub open spec fn hyperlink(hyperlinks: bool, in_tmux: bool, url: Seq<char>, text: Seq<char>) -> Seq<
    char,
> {
    if !hyperlinks {
        text
    } else {
        tmux_wrapped(osc8_open(url), in_tmux) + text + tmux_wrapped(osc8_close(), in_tmux)
    }
}

/// Emits an OSC 8 hyperlink around `text`, or `text` alone when the terminal
/// has no hyperlink support.
pub fn emit_hyperlink(hyperlinks: bool, in_tmux_val: bool, url: &str, text: &str) -> (s: String)
    ensures
        s@ == hyperlink(hyperlinks, in_tmux_val, url@, text@),
{
    if !hyperlinks {
        return text.to_owned();
    }
    proof {
        reveal_strlit("\x1b]8;;");
        reveal_strlit("\x1b\\");
        assert("\x1b]8;;"@ =~= seq!['\x1b', ']', '8', ';', ';']);
        assert("\x1b\\"@ =~= st());
    }
    let mut open = String::new();
    open.push_str("\x1b]8;;");
    open.push_str(url);
    open.push_str("\x1b\\");
    let mut close = String::new();
    close.push_str("\x1b]8;;");
    close.push_str("\x1b\\");
    assert(close@ =~= osc8_close());
    let open_w = wrap_for_tmux_with(open.as_str(), in_tmux_val);
    let close_w = wrap_for_tmux_with(close.as_str(), in_tmux_val);
    let mut out = open_w;
    out.push_str(text);
    out.push_str(close_w.as_str());
    out
}

/// `ESC ] 52 ; c ; <payload> ESC \`, an OSC 52 clipboard write.
pub open spec fn osc52(payload: Seq<char>) -> Seq<char> {
    seq!['\x1b', ']', '5', '2', ';', 'c', ';'] + payload + st()
}

/// The clipboard-write text for `content`: empty when the terminal has no
/// clipboard support, otherwise the OSC 52 sequence carrying the base64 of the
/// content's UTF-8 bytes, wrapped for tmux when inside tmux.
pub open spec fn clipboard_write(clipboard: bool, in_tmux: bool, content: Seq<char>) -> Seq<char> {
    if !clipboard {
        seq![]
    } else {
        tmux_wrapped(osc52(base64_standard(utf8(content))), in_tmux)
    }
}

/// Emits an OSC 52 clipboard-write sequence carrying `content` in base64, or an
/// empty string when the terminal has no clipboard support. Either way it
/// strips to nothing: no visible character is written.
pub fn emit_clipboard(clipboard: bool, in_tmux_val: bool, content: &str) -> (s: String)
    requires
        base64_len(utf8(content@).len()) <= usize::MAX,
    ensures
        s@ == clipboard_write(clipboard, in_tmux_val, content@),
        stripped(s@) == Seq::<char>::empty(),
{
    if !clipboard {
        proof {
            clipboard_write_strips_to_nothing(clipboard, in_tmux_val, content@);
        }
        return String::new();
    }
    let b64 = encode_standard(content.as_bytes());
    proof {
        clipboard_write_strips_to_nothing(clipboard, in_tmux_val, content@);
    }
    proof {
        reveal_strlit("\x1b]52;c;");
        reveal_strlit("\x1b\\");
        assert("\x1b]52;c;"@ =~= seq!['\x1b', ']', '5', '2', ';', 'c', ';']);
        assert("\x1b\\"@ =~= st());
    }
    let mut seq = String::new();
    seq.push_str("\x1b]52;c;");
    seq.push_str(b64.as_str());
    seq.push_str("\x1b\\");
    wrap_for_tmux_with(seq.as_str(), in_tmux_val)
}

/// OSC 133 semantic prompt phases.
#[derive(Debug, Clone, Copy, PartialEq, Eq, Structural)]
pub enum TaskPhase {
    /// `OSC 133;A`: prompt start.
    PromptStart,
    /// `OSC 133;B`: prompt end, the user's command begins.
    PromptEnd,
    /// `OSC 133;C`: command start, output begins.
    CommandStart,
    /// `OSC 133;D;<exit>`: command end with its exit code.
    CommandEnd(i32),
}

/// The OSC 133 sequence for `phase`.
pub open spec fn osc133(phase: TaskPhase) -> Seq<char> {
    seq!['\x1b', ']', '1', '3', '3', ';'] + match phase {
        TaskPhase::PromptStart => seq!['A'],
        TaskPhase::PromptEnd => seq!['B'],
        TaskPhase::CommandStart => seq!['C'],
        TaskPhase::CommandEnd(code) => seq!['D', ';'] + decimal_signed(code as int),
    } + st()
}

/// The task-marker text for `phase`: empty when unsupported, otherwise the
/// OSC 133 sequence, wrapped for tmux when inside tmux.
pub open spec fn task_marker(task_markers: bool, in_tmux: bool, phase: TaskPhase) -> Seq<char> {
    if !task_markers {
        seq![]
    } else {
        tmux_wrapped(osc133(phase), in_tmux)
    }
}

/// Emits an OSC 133 task marker, or an empty string when unsupported.
pub fn emit_task_markers(task_markers: bool, in_tmux_val: bool, phase: TaskPhase) -> (s: String)
    ensures
        s@ == task_marker(task_markers, in_tmux_val, phase),
{
    if !task_markers {
        return String::new();
    }
    proof {
        reveal_strlit("\x1b]133;");
        reveal_strlit("\x1b\\");
        assert("\x1b]133;"@ =~= seq!['\x1b', ']', '1', '3', '3', ';']);
        assert("\x1b\\"@ =~= st());
    }
    let mut seq = String::new();
    seq.push_str("\x1b]133;");
    match phase {
        TaskPhase::PromptStart => seq.push('A'),
        TaskPhase::PromptEnd => seq.push('B'),
        TaskPhase::CommandStart => seq.push('C'),
        TaskPhase::CommandEnd(code) => {
            seq.push('D');
            seq.push(';');
            push_decimal_signed(&mut seq, code as i64);
        },
    }
    seq.push_str("\x1b\\");
    assert(seq@ =~= osc133(phase));
    wrap_for_tmux_with(seq.as_str(), in_tmux_val)
}

proof fn lemma_csi_end_shift(a: Seq<char>, b: Seq<char>, j: int)
    requires
        0 <= j,
    ensures
        csi_end(a + b, a.len() + j) == a.len() + csi_end(b, j),
    decreases b.len() - j,
{
    if j < b.len() {
        assert((a + b)[a.len() + j] == b[j]);
        lemma_csi_end_shift(a, b, j + 1);
    }
}

proof fn lemma_st_end_shift(a: Seq<char>, b: Seq<char>, j: int)
    requires
        0 <= j,
    ensures
        st_end(a + b, a.len() + j) == a.len() + st_end(b, j),
    decreases b.len() - j,
{
    if j < b.len() {
        assert((a + b)[a.len() + j] == b[j]);
        if j + 1 < b.len() {
            assert((a + b)[a.len() + j + 1] == b[j + 1]);
        }
        assert(st_at(a + b, a.len() + j) == st_at(b, j));
        lemma_st_end_shift(a, b, j + 1);
    }
}

/// What follows a prefix is read the same with or without the prefix.
pub(crate) proof fn lemma_visible_shift(a: Seq<char>, b: Seq<char>, j: int)
    requires
        0 <= j,
    ensures
        visible_from(a + b, a.len() + j) == visible_from(b, j),
    decreases b.len() - j,
{
    let s = a + b;
    let i = a.len() + j;
    if j < b.len() {
        assert(s[i] == b[j]);
        if b[j] != esc() {
            lemma_visible_shift(a, b, j + 1);
        } else if j + 1 < b.len() {
            assert(s[i + 1] == b[j + 1]);
            lemma_csi_end_shift(a, b, j + 2);
            lemma_st_end_shift(a, b, j + 2);
            assert(escape_end(s, i) == a.len() + escape_end(b, j));
            crate::width::lemma_escape_end_bounds(b, j);
            lemma_visible_shift(a, b, escape_end(b, j));
        }
    }
}

/// No BEL and no ESC in `s`.
pub open spec fn terminator_free(s: Seq<char>) -> bool {
    forall|k: int| 0 <= k < s.len() ==> s[k] != esc() && s[k] != '\x07'
}

proof fn lemma_st_end_at(s: Seq<char>, j: int, k: int)
    requires
        0 <= j <= k,
        forall|m: int| j <= m < k ==> s[m] != '\x07' && !st_at(s, m),
        st_at(s, k),
    ensures
        st_end(s, j) == k + 2,
    decreases k - j,
{
    if j < k {
        lemma_st_end_at(s, j + 1, k);
    }
}

/// A string sequence `ESC <introducer> body ESC \` whose body holds no BEL
/// and no ESC is skipped whole.
proof fn lemma_string_sequence_skipped(intro: char, body: Seq<char>, rest: Seq<char>)
    requires
        is_string_introducer(intro),
        terminator_free(body),
    ensures
        visible_from(seq![esc(), intro] + body + st() + rest, 0) == visible_from(rest, 0),
{
    let p = seq![esc(), intro] + body + st();
    let s = p + rest;
    let k: int = 2 + body.len() as int;
    assert(s[0] == esc());
    assert(s[1] == intro);
    assert forall|m: int| 2 <= m < k implies s[m] != '\x07' && !st_at(s, m) by {
        assert(s[m] == body[m - 2]);
    }
    assert(s[k] == esc() && s[k + 1] == '\\');
    lemma_st_end_at(s, 2, k);
    assert(escape_end(s, 0) == p.len());
    lemma_visible_shift(p, rest, 0);
}

/// A two-character control `ESC c` (with `c` neither `[` nor an introducer)
/// is skipped.
proof fn lemma_two_char_control_skipped(c: char, rest: Seq<char>)
    requires
        c != '[',
        !is_string_introducer(c),
    ensures
        visible_from(seq![esc(), c] + rest, 0) == visible_from(rest, 0),
{
    let p = seq![esc(), c];
    lemma_visible_shift(p, rest, 0);
}

/// Escape-free text passes through.
pub(crate) proof fn lemma_plain_prefix(t: Seq<char>, rest: Seq<char>)
    requires
        escape_free(t),
    ensures
        visible_from(t + rest, 0) == t + visible_from(rest, 0),
{
    let s = t + rest;
    lemma_visible_from_plain(s, 0, t.len() as int);
    assert(s.subrange(0, t.len() as int) =~= t);
    lemma_visible_shift(t, rest, 0);
}

proof fn lemma_doubled_concat(a: Seq<char>, b: Seq<char>)
    ensures
        doubled_escapes(a + b) == doubled_escapes(a) + doubled_escapes(b),
    decreases b.len(),
{
    if b.len() == 0 {
        assert(a + b =~= a);
    } else {
        lemma_doubled_concat(a, b.drop_last());
        assert((a + b).drop_last() =~= a + b.drop_last());
    }
}

proof fn lemma_doubled_plain(a: Seq<char>)
    requires
        escape_free(a),
    ensures
        doubled_escapes(a) == a,
    decreases a.len(),
{
    if a.len() > 0 {
        lemma_doubled_plain(a.drop_last());
        assert(a.drop_last().push(a.last()) =~= a);
    }
}

/// The tmux-wrapped form of `ESC ] body ESC \`.
proof fn lemma_wrapped_osc(body: Seq<char>)
    requires
        terminator_free(body),
    ensures
        tmux_wrapped(seq![esc(), ']'] + body + st(), true) == seq![esc(), 'P'] + (seq![
            't',
            'm',
            'u',
            'x',
            ';',
            esc(),
            esc(),
            ']',
        ] + body + seq![esc()]) + st() + seq![esc(), '\\'],
{
    lemma_doubled_concat(seq![esc(), ']'] + body, st());
    lemma_doubled_concat(seq![esc(), ']'], body);
    lemma_doubled_concat(seq![esc()], seq![']']);
    lemma_doubled_concat(seq![esc()], seq!['\\']);
    assert(seq![esc(), ']'] =~= seq![esc()] + seq![']']);
    assert(st() =~= seq![esc()] + seq!['\\']);
    assert(doubled_escapes(seq![esc()]) =~= seq![esc(), esc()]) by {
        reveal_with_fuel(doubled_escapes, 2);
        assert(seq![esc()].drop_last() =~= Seq::<char>::empty());
    }
    assert(doubled_escapes(seq![']']) =~= seq![']']) by {
        reveal_with_fuel(doubled_escapes, 2);
        assert(seq![']'].drop_last() =~= Seq::<char>::empty());
    }
    assert(doubled_escapes(seq!['\\']) =~= seq!['\\']) by {
        reveal_with_fuel(doubled_escapes, 2);
        assert(seq!['\\'].drop_last() =~= Seq::<char>::empty());
    }
    lemma_doubled_plain(body);
    assert(tmux_wrapped(seq![esc(), ']'] + body + st(), true) =~= seq![esc(), 'P'] + (seq![
        't',
        'm',
        'u',
        'x',
        ';',
        esc(),
        esc(),
        ']',
    ] + body + seq![esc()]) + st() + seq![esc(), '\\']);
}

/// An OSC sequence `ESC ] body ESC \` with a terminator-free body leaves no
/// visible character, whether wrapped for tmux or not.
proof fn lemma_osc_skipped(body: Seq<char>, in_tmux: bool, rest: Seq<char>)
    requires
        terminator_free(body),
    ensures
        visible_from(tmux_wrapped(seq![esc(), ']'] + body + st(), in_tmux) + rest, 0) == visible_from(
            rest,
            0,
        ),
{
    if in_tmux {
        lemma_wrapped_osc(body);
        let inner = seq!['t', 'm', 'u', 'x', ';', esc(), esc(), ']'] + body + seq![esc()];
        let tail = seq![esc(), '\\'] + rest;
        let w = seq![esc(), 'P'] + inner + st() + seq![esc(), '\\'];
        assert(w + rest =~= seq![esc(), 'P'] + inner.drop_last() + seq![esc(), esc(), '\\'] + tail);
        // Read the wrapped form as: a DCS whose body is `inner` without its
        // last ESC plus that ESC, ending at the doubled terminator.
        let dcs_body = inner.drop_last() + seq![esc()];
        assert(dcs_body =~= inner);
        let s = w + rest;
        let k: int = 2 + inner.len() - 1;
        assert forall|m: int| 2 <= m < k implies s[m] != '\x07' && !st_at(s, m) by {
            assert(s[m] == inner[m - 2]);
            assert(s[m + 1] == inner[m - 1]);
            if 8 <= m - 2 < 8 + body.len() {
                assert(inner[m - 2] == body[m - 10]);
            }
        }
        assert(s[k] == esc() && s[k + 1] == esc());
        assert(st_at(s, k + 1));
        assert forall|m: int| 2 <= m < k + 1 implies s[m] != '\x07' && !st_at(s, m) by {
            if m < k {
            } else {
                assert(s[m + 1] == esc());
            }
        }
        lemma_st_end_at(s, 2, k + 1);
        assert(escape_end(s, 0) == k + 3);
        let p = seq![esc(), 'P'] + inner + st();
        assert(p.len() == k + 3);
        assert(s =~= p + tail);
        lemma_visible_shift(p, tail, 0);
        lemma_two_char_control_skipped('\\', rest);
    } else {
        lemma_string_sequence_skipped(']', body, rest);
    }
}

/// A hyperlink strips down to its text: with a URL free of ESC and BEL and
/// a text free of ESC, removing the escape sequences from the emitted
/// hyperlink leaves exactly the text, inside tmux or not, and whether
/// hyperlinks are supported or not.
pub proof fn hyperlink_strips_to_text(hyperlinks: bool, in_tmux: bool, url: Seq<char>, text: Seq<char>)
    requires
        terminator_free(url),
        escape_free(text),
    ensures
        stripped(hyperlink(hyperlinks, in_tmux, url, text)) == text,
{
    if !hyperlinks {
        crate::width::plain_text_is_unchanged(text);
    } else {
        let open_body = seq!['8', ';', ';'] + url;
        let close_body = seq!['8', ';', ';'];
        assert(osc8_open(url) =~= seq![esc(), ']'] + open_body + st());
        assert(osc8_close() =~= seq![esc(), ']'] + close_body + st());
        assert(terminator_free(open_body)) by {
            assert forall|k: int| 0 <= k < open_body.len() implies open_body[k] != esc()
                && open_body[k] != '\x07' by {
                if k >= 3 {
                    assert(open_body[k] == url[k - 3]);
                }
            }
        }
        let close_w = tmux_wrapped(osc8_close(), in_tmux);
        let all = tmux_wrapped(osc8_open(url), in_tmux) + text + close_w;
        assert(all =~= tmux_wrapped(osc8_open(url), in_tmux) + (text + close_w));
        lemma_osc_skipped(open_body, in_tmux, text + close_w);
        lemma_plain_prefix(text, close_w);
        assert(close_w =~= close_w + Seq::<char>::empty());
        lemma_osc_skipped(close_body, in_tmux, Seq::<char>::empty());
        assert(visible_from(Seq::<char>::empty(), 0) == Seq::<char>::empty());
        assert(text + Seq::<char>::empty() =~= text);
    }
}

/// Text free of ESC is kept as it is in front of whatever follows: stripping
/// `s + t` gives `s` followed by the stripped `t`.
pub proof fn escape_free_prefix_is_kept(s: Seq<char>, t: Seq<char>)
    requires
        escape_free(s),
    ensures
        stripped(s + t) == s + stripped(t),
{
    lemma_plain_prefix(s, t);
}

/// An OSC sequence with an ESC- and BEL-free body, wrapped for tmux or not,
/// strips to nothing.
proof fn lemma_osc_strips_to_nothing(body: Seq<char>, in_tmux: bool)
    requires
        terminator_free(body),
    ensures
        stripped(tmux_wrapped(seq![esc(), ']'] + body + st(), in_tmux)) == Seq::<char>::empty(),
{
    let w = tmux_wrapped(seq![esc(), ']'] + body + st(), in_tmux);
    lemma_osc_skipped(body, in_tmux, Seq::<char>::empty());
    assert(w + Seq::<char>::empty() =~= w);
    assert(visible_from(Seq::<char>::empty(), 0) == Seq::<char>::empty());
}

pub(crate) proof fn lemma_decimal_digits(n: nat)
    ensures
        forall|k: int| 0 <= k < decimal(n).len() ==> '0' <= #[trigger] decimal(n)[k] <= '9',
    decreases n,
{
    if n >= 10 {
        lemma_decimal_digits(n / 10);
        let d = decimal(n);
        assert(d == decimal(n / 10).push(digit_char(n % 10)));
        assert forall|k: int| 0 <= k < d.len() implies '0' <= #[trigger] d[k] <= '9' by {
            if k < d.len() - 1 {
                assert(d[k] == decimal(n / 10)[k]);
            }
        }
    }
}

/// A clipboard write strips to nothing, whatever the content: OSC 52
/// carries only base64 text.
pub proof fn clipboard_write_strips_to_nothing(clipboard: bool, in_tmux: bool, content: Seq<char>)
    ensures
        stripped(clipboard_write(clipboard, in_tmux, content)) == Seq::<char>::empty(),
{
    if !clipboard {
        assert(visible_from(Seq::<char>::empty(), 0) == Seq::<char>::empty());
    } else {
        let b = base64_standard(utf8(content));
        base64_shape(utf8(content));
        let body = seq!['5', '2', ';', 'c', ';'] + b;
        assert(osc52(b) =~= seq![esc(), ']'] + body + st());
        assert forall|k: int| 0 <= k < body.len() implies body[k] != esc() && body[k] != '\x07' by {
            if k >= 5 {
                assert(body[k] == b[k - 5]);
                assert(is_base64_char(b[k - 5]));
            }
        }
        lemma_osc_strips_to_nothing(body, in_tmux);
    }
}

/// A task marker strips to nothing, whatever the phase and exit code.
pub proof fn task_marker_strips_to_nothing(task_markers: bool, in_tmux: bool, phase: TaskPhase)
    ensures
        stripped(task_marker(task_markers, in_tmux, phase)) == Seq::<char>::empty(),
{
    if !task_markers {
        assert(visible_from(Seq::<char>::empty(), 0) == Seq::<char>::empty());
    } else {
        let tail = match phase {
            TaskPhase::PromptStart => seq!['A'],
            TaskPhase::PromptEnd => seq!['B'],
            TaskPhase::CommandStart => seq!['C'],
            TaskPhase::CommandEnd(code) => seq!['D', ';'] + decimal_signed(code as int),
        };
        let body = seq!['1', '3', '3', ';'] + tail;
        assert(osc133(phase) =~= seq![esc(), ']'] + body + st());
        assert forall|k: int| 0 <= k < body.len() implies body[k] != esc() && body[k] != '\x07' by {
            if k >= 4 {
                assert(body[k] == tail[k - 4]);
                if let TaskPhase::CommandEnd(code) = phase {
                    let d = decimal_signed(code as int);
                    if k >= 6 {
                        assert(tail[k - 4] == d[k - 6]);
                        if code < 0 {
                            lemma_decimal_digits((-code) as nat);
                            if k >= 7 {
                                assert(d[k - 6] == decimal((-code) as nat)[k - 7]);
                            }
                        } else {
                            lemma_decimal_digits(code as nat);
                        }
                    }
                }
            }
        }
        lemma_osc_strips_to_nothing(body, in_tmux);
    }
}

/// `s` with every doubled ESC read back as one ESC, from left to right.
pub open spec fn undoubled_escapes(s: Seq<char>) -> Seq<char>
    decreases s.len(),
{
    if s.len() == 0 {
        seq![]
    } else if s.len() >= 2 && s[0] == esc() && s[1] == esc() {
        seq![esc()] + undoubled_escapes(s.skip(2))
    } else {
        seq![s[0]] + undoubled_escapes(s.skip(1))
    }
}

proof fn lemma_undouble_doubled(inner: Seq<char>)
    ensures
        undoubled_escapes(doubled_escapes(inner)) == inner,
    decreases inner.len(),
{
    if inner.len() > 0 {
        let c = inner[0];
        let rest = inner.skip(1);
        assert(inner =~= seq![c] + rest);
        lemma_doubled_concat(seq![c], rest);
        assert(seq![c].drop_last() =~= Seq::<char>::empty());
        assert(doubled_escapes(Seq::<char>::empty()) == Seq::<char>::empty());
        let d = doubled_escapes(rest);
        lemma_undouble_doubled(rest);
        if c == esc() {
            assert(doubled_escapes(seq![c]) =~= seq![esc(), esc()]);
            let w = seq![esc(), esc()] + d;
            assert(w.skip(2) =~= d);
        } else {
            assert(doubled_escapes(seq![c]) =~= seq![c]);
            let w = seq![c] + d;
            assert(w.skip(1) =~= d);
        }
    }
}

/// Tmux passthrough can be undone: the wrapped text opens with `ESC P tmux ;`
/// and closes with `ESC \`, and reading the doubled ESCs between them back
/// gives the inner sequence. Wrapping is not idempotent: a second wrap nests.
pub proof fn tmux_wrap_is_undone(inner: Seq<char>)
    ensures
        ({
            let w = tmux_wrapped(inner, true);
            &&& w.take(7) == tmux_open()
            &&& w.skip(w.len() - 2) == st()
            &&& undoubled_escapes(w.subrange(7, w.len() - 2)) == inner
            &&& tmux_wrapped(w, true) != w
        }),
{
    let d = doubled_escapes(inner);
    let w = tmux_wrapped(inner, true);
    assert(w == tmux_open() + d + st());
    assert(w.take(7) =~= tmux_open());
    assert(w.skip(w.len() - 2) =~= st());
    assert(w.subrange(7, w.len() - 2) =~= d);
    lemma_undouble_doubled(inner);
    assert(tmux_wrapped(w, true).len() > w.len()) by {
        lemma_doubled_len(w);
    }
}

proof fn lemma_doubled_len(s: Seq<char>)
    ensures
        doubled_escapes(s).len() >= s.len(),
    decreases s.len(),
{
    if s.len() > 0 {
        lemma_doubled_len(s.drop_last());
    }
}

/// Number of ESC characters in `s`.
pub open spec fn escape_count(s: Seq<char>) -> nat
    decreases s.len(),
{
    if s.len() == 0 {
        0
    } else {
        escape_count(s.drop_last()) + if s.last() == esc() {
            1nat
        } else {
            0nat
        }
    }
}

/// Tmux passthrough doubles every ESC of the inner sequence and keeps every
/// other character: the doubled body has twice the ESCs and as many other
/// characters.
pub proof fn passthrough_doubles_escapes(inner: Seq<char>)
    ensures
        escape_count(doubled_escapes(inner)) == 2 * escape_count(inner),
        doubled_escapes(inner).len() - escape_count(doubled_escapes(inner)) == inner.len()
            - escape_count(inner),
    decreases inner.len(),
{
    if inner.len() > 0 {
        let d = doubled_escapes(inner.drop_last());
        passthrough_doubles_escapes(inner.drop_last());
        let piece = if inner.last() == esc() {
            seq![esc(), esc()]
        } else {
            seq![inner.last()]
        };
        lemma_escape_count_concat(d, piece);
        reveal_with_fuel(escape_count, 3);
        reveal_with_fuel(doubled_escapes, 2);
        if inner.last() == esc() {
            assert(piece.drop_last() =~= seq![esc()]);
            assert(seq![esc()].drop_last() =~= Seq::<char>::empty());
        } else {
            assert(piece.drop_last() =~= Seq::<char>::empty());
        }
    }
}

proof fn lemma_escape_count_concat(a: Seq<char>, b: Seq<char>)
    ensures
        escape_count(a + b) == escape_count(a) + escape_count(b),
    decreases b.len(),
{
    if b.len() == 0 {
        assert(a + b =~= a);
    } else {
        lemma_escape_count_concat(a, b.drop_last());
        assert((a + b).drop_last() =~= a + b.drop_last());
    }
}

} // verus!
