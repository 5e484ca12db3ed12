//! Visible width of terminal text: escape sequences are skipped, and the rest
//! is measured grapheme cluster by grapheme cluster.

use unicode_segmentation::UnicodeSegmentation;
use unicode_width::UnicodeWidthStr;
use vstd::prelude::*;

use crate::text::{chars_of, esc, string_from_chars};

verus! {

/// Final characters of a CSI sequence (`@`..=`~`).
pub open spec fn is_csi_final(c: char) -> bool {
    '\x40' <= c && c <= '\x7e'
}

/// Introducers of sequences that run to a string terminator: OSC `]`, DCS
/// `P`, APC `_` and PM `^`.
pub open spec fn is_string_introducer(c: char) -> bool {
    c == ']' || c == 'P' || c == '_' || c == '^'
}

/// Index just past the CSI final character, searching from `j`; the end of
/// `s` when there is none.
pub open spec fn csi_end(s: Seq<char>, j: int) -> int
    decreases s.len() - j,
{
    if j >= s.len() {
        s.len() as int
    } else if is_csi_final(s[j]) {
        j + 1
    } else {
        csi_end(s, j + 1)
    }
}

/// Whether a string terminator `ESC \` starts at `j`.
pub open spec fn st_at(s: Seq<char>, j: int) -> bool {
    0 <= j && j + 1 < s.len() && s[j] == esc() && s[j + 1] == '\\'
}

/// Index just past the first BEL or `ESC \`, searching from `j`; the end of
/// `s` when there is none.
pub open spec fn st_end(s: Seq<char>, j: int) -> int
    decreases s.len() - j,
{
    if j >= s.len() {
        s.len() as int
    } else if s[j] == '\x07' {
        j + 1
    } else if st_at(s, j) {
        j + 2
    } else {
        st_end(s, j + 1)
    }
}

/// Index just past the escape sequence whose ESC stands at `i` (with a
/// character after it).
pub open spec fn escape_end(s: Seq<char>, i: int) -> int {
    if s[i + 1] == '[' {
        csi_end(s, i + 2)
    } else if is_string_introducer(s[i + 1]) {
        st_end(s, i + 2)
    } else {
        i + 2
    }
}

pub proof fn lemma_csi_end_bounds(s: Seq<char>, j: int)
    requires
        0 <= j <= s.len(),
    ensures
        j <= csi_end(s, j) <= s.len(),
    decreases s.len() - j,
{
    if j < s.len() && !is_csi_final(s[j]) {
        lemma_csi_end_bounds(s, j + 1);
    }
}

pub proof fn lemma_st_end_bounds(s: Seq<char>, j: int)
    requires
        0 <= j <= s.len(),
    ensures
        j <= st_end(s, j) <= s.len(),
    decreases s.len() - j,
{
    if j < s.len() && s[j] != '\x07' && !st_at(s, j) {
        lemma_st_end_bounds(s, j + 1);
    }
}

pub proof fn lemma_escape_end_bounds(s: Seq<char>, i: int)
    requires
        0 <= i,
        i + 1 < s.len(),
    ensures
        i + 2 <= escape_end(s, i) <= s.len(),
{
    lemma_csi_end_bounds(s, i + 2);
    lemma_st_end_bounds(s, i + 2);
}

/// The visible characters of `s` from index `i` on: ordinary characters are
/// kept; an ESC and the sequence it starts are dropped (CSI up to its final
/// character, OSC/DCS/APC/PM up to BEL or `ESC \`, anything else as a
/// two-character control); a lone trailing ESC is dropped.
pub open spec fn visible_from(s: Seq<char>, i: int) -> Seq<char>
    decreases s.len() - i,
{
    if i < 0 || i >= s.len() {
        seq![]
    } else if s[i] != esc() {
        seq![s[i]] + visible_from(s, i + 1)
    } else if i + 1 >= s.len() {
        seq![]
    } else {
        proof {
            lemma_escape_end_bounds(s, i);
        }
        visible_from(s, escape_end(s, i))
    }
}

/// The visible characters of `s`: `s` without its escape sequences.
pub open spec fn stripped(s: Seq<char>) -> Seq<char> {
    visible_from(s, 0)
}

fn is_st_at(v: &Vec<char>, j: usize) -> (r: bool)
    ensures
        r == st_at(v@, j as int),
{
    j < v.len() && v.len() - j > 1 && v[j] == '\x1b' && v[j + 1] == '\\'
}

/// Removes ANSI CSI / OSC / DCS / APC / PM sequences and two-character
/// controls from `s`, dropping everything from an `ESC` up to the sequence's
/// terminator.
pub fn strip_escapes(s: &str) -> (out: String)
    ensures
        out@ == stripped(s@),
{
    let v = chars_of(s);
    let n = v.len();
    let mut kept: Vec<char> = Vec::new();
    let mut i: usize = 0;
    while i < n
        invariant
            v@ == s@,
            n == v@.len(),
            i <= n,
            kept@ + visible_from(v@, i as int) == stripped(v@),
        decreases n - i,
    {
        let c = v[i];
        if c != '\x1b' {
            kept.push(c);
            assert(kept@ + visible_from(v@, i + 1) =~= stripped(v@));
            i += 1;
        } else if n - i < 2 {
            assert(visible_from(v@, i as int) == Seq::<char>::empty());
            assert(kept@ + visible_from(v@, n as int) =~= stripped(v@));
            i = n;
        } else {
            let next = v[i + 1];
            let ghost target = escape_end(v@, i as int);
            proof {
                lemma_escape_end_bounds(v@, i as int);
            }
            let mut j: usize = i + 2;
            if next == '[' {
                while j < n && !(v[j] >= '\x40' && v[j] <= '\x7e')
                    invariant
                        n == v@.len(),
                        j <= n,
                        csi_end(v@, j as int) == target,
                    decreases n - j,
                {
                    j += 1;
                }
                if j < n {
                    j += 1;
                }
            } else if next == ']' || next == 'P' || next == '_' || next == '^' {
                while j < n && v[j] != '\x07' && !is_st_at(&v, j)
                    invariant
                        n == v@.len(),
                        j <= n,
                        st_end(v@, j as int) == target,
                    decreases n - j,
                {
                    j += 1;
                }
                if j < n {
                    if v[j] == '\x07' {
                        j += 1;
                    } else {
                        j += 2;
                    }
                }
            }
            assert(j == target);
            i = j;
        }
    }
    assert(visible_from(v@, n as int) == Seq::<char>::empty());
    assert(kept@ =~= stripped(v@));
    string_from_chars(&kept)
}

/// Whether `s` holds no ESC character.
pub open spec fn escape_free(s: Seq<char>) -> bool {
    forall|k: int| 0 <= k < s.len() ==> s[k] != esc()
}

/// Characters from `i` on that hold no ESC pass through unchanged.
pub proof fn lemma_visible_from_plain(s: Seq<char>, i: int, k: int)
    requires
        0 <= i <= k <= s.len(),
        forall|m: int| i <= m < k ==> s[m] != esc(),
    ensures
        visible_from(s, i) == s.subrange(i, k) + visible_from(s, k),
    decreases k - i,
{
    if i < k {
        lemma_visible_from_plain(s, i + 1, k);
        assert(s.subrange(i, k) =~= seq![s[i]] + s.subrange(i + 1, k));
    } else {
        assert(s.subrange(i, k) =~= Seq::<char>::empty());
    }
}

proof fn lemma_visible_from_escape_free(s: Seq<char>, i: int)
    requires
        0 <= i <= s.len(),
    ensures
        escape_free(visible_from(s, i)),
    decreases s.len() - i,
{
    if i < s.len() {
        if s[i] != esc() {
            lemma_visible_from_escape_free(s, i + 1);
        } else if i + 1 < s.len() {
            lemma_escape_end_bounds(s, i);
            lemma_visible_from_escape_free(s, escape_end(s, i));
        }
    }
}

/// Stripping removes every escape character: what is left holds no ESC.
pub proof fn stripped_has_no_escapes(s: Seq<char>)
    ensures
        escape_free(stripped(s)),
{
    lemma_visible_from_escape_free(s, 0);
}

/// Text without escape characters is left as it is.
pub proof fn plain_text_is_unchanged(s: Seq<char>)
    requires
        escape_free(s),
    ensures
        stripped(s) == s,
{
    lemma_visible_from_plain(s, 0, s.len() as int);
    assert(s.subrange(0, s.len() as int) =~= s);
    assert(visible_from(s, s.len() as int) == Seq::<char>::empty());
}

/// Stripping twice is stripping once.
pub proof fn strip_is_idempotent(s: Seq<char>)
    ensures
        stripped(stripped(s)) == stripped(s),
{
    stripped_has_no_escapes(s);
    plain_text_is_unchanged(stripped(s));
}

/// The grapheme clusters of `s` (extended clusters), in order, as the
/// `unicode-segmentation` crate splits them.
pub uninterp spec fn grapheme_clusters(s: Seq<char>) -> Seq<Seq<char>>;

/// The column width of `s` that the `unicode-width` crate reports.
pub uninterp spec fn unicode_width_of(s: Seq<char>) -> usize;

/// Calls `UnicodeSegmentation::graphemes(s, true)` and collects the clusters.
/// The contract claims that the clusters are `grapheme_clusters(s)`, in
/// order, that none is empty and that together they are `s` (the iterator
/// hands out consecutive non-empty slices of `s`); it states nothing of how
/// the crate draws cluster boundaries.
#[verifier::external_body]
fn graphemes(s: &str) -> (v: Vec<String>)
    ensures
        v@.len() == grapheme_clusters(s@).len(),
        forall|i: int| 0 <= i < v@.len() ==> #[trigger] v@[i]@ == grapheme_clusters(s@)[i],
        forall|i: int| 0 <= i < v@.len() ==> (#[trigger] v@[i]@).len() > 0,
        v.deep_view().flatten() == s@,
{
    s.graphemes(true).map(|g| g.to_string()).collect()
}

/// Calls `UnicodeWidthStr::width`. The contract claims that the result is
/// `unicode_width_of(s)`, and that text of printable ASCII characters (space
/// to `~`) is one column per character (the crate gives every character up
/// to U+00A0 one column, save a CR before an LF); the crate's width tables
/// are not restated.
#[verifier::external_body]
fn str_width(s: &str) -> (w: usize)
    ensures
        w == unicode_width_of(s@),
        (forall|i: int| 0 <= i < s@.len() ==> ' ' <= #[trigger] s@[i] <= '~') ==> w == s@.len(),
{
    UnicodeWidthStr::width(s)
}

/// Cells a grapheme cluster takes: its unicode width, but at least one.
pub open spec fn cluster_cells(g: Seq<char>) -> nat {
    if unicode_width_of(g) == 0 {
        1
    } else {
        unicode_width_of(g) as nat
    }
}

/// Cells a sequence of grapheme clusters takes.
pub open spec fn clusters_cells(gs: Seq<Seq<char>>) -> nat
    decreases gs.len(),
{
    if gs.len() == 0 {
        0
    } else {
        clusters_cells(gs.drop_last()) + cluster_cells(gs.last())
    }
}

/// Visible terminal-cell width of `s`: escape sequences skipped, each
/// grapheme cluster counted by its unicode width and at least one cell.
pub open spec fn visible_cells(s: Seq<char>) -> nat {
    clusters_cells(grapheme_clusters(stripped(s)))
}

/// `n`, capped at `usize::MAX`.
pub open spec fn capped(n: nat) -> usize {
    if n <= usize::MAX {
        n as usize
    } else {
        usize::MAX
    }
}

/// Whether every character of `s` is printable ASCII (space to `~`).
pub open spec fn printable_ascii(s: Seq<char>) -> bool {
    forall|i: int| 0 <= i < s.len() ==> ' ' <= #[trigger] s[i] <= '~'
}

/// The visible terminal-cell width of `s`, skipping ANSI escape sequences;
/// grapheme-aware. (A width past `usize::MAX` is reported as `usize::MAX`.)
/// Printable ASCII text is one cell per character.
pub fn visible_width(s: &str) -> (w: usize)
    ensures
        w == capped(visible_cells(s@)),
        printable_ascii(s@) ==> w == capped(s@.len()),
{
    let plain = strip_escapes(s);
    let gs = graphemes(plain.as_str());
    let ghost clusters = grapheme_clusters(plain@);
    let ghost dv = gs.deep_view();
    let ghost pr = printable_ascii(s@);
    proof {
        if pr {
            assert(escape_free(s@));
            plain_text_is_unchanged(s@);
        }
        assert(dv.take(0).flatten() =~= Seq::<char>::empty());
        assert(dv.skip(0) =~= dv);
    }
    let mut total: usize = 0;
    let mut i: usize = 0;
    while i < gs.len()
        invariant
            gs@.len() == clusters.len(),
            forall|k: int| 0 <= k < gs@.len() ==> #[trigger] gs@[k]@ == clusters[k],
            forall|k: int| 0 <= k < gs@.len() ==> (#[trigger] gs@[k]@).len() > 0,
            dv == gs.deep_view(),
            plain@ == dv.take(i as int).flatten() + dv.skip(i as int).flatten(),
            pr ==> plain@ == s@ && printable_ascii(plain@),
            i <= gs@.len(),
            total == capped(clusters_cells(clusters.take(i as int))),
            pr ==> total == capped(dv.take(i as int).flatten().len()),
        decreases gs@.len() - i,
    {
        let cw = str_width(gs[i].as_str());
        proof {
            let a = dv.take(i as int).flatten();
            let g = dv[i as int];
            assert(g == gs@[i as int]@);
            assert(dv.skip(i as int).first() == g);
            assert(dv.skip(i as int).drop_first() =~= dv.skip(i + 1));
            assert(dv.skip(i as int).flatten() == g + dv.skip(i + 1).flatten());
            assert(dv.take(i + 1) =~= dv.take(i as int).push(g));
            dv.take(i as int).lemma_flatten_push(g);
            assert(plain@ =~= dv.take(i + 1).flatten() + dv.skip(i + 1).flatten());
            if pr {
                assert forall|k: int| 0 <= k < g.len() implies ' ' <= #[trigger] g[k] <= '~' by {
                    assert(plain@[a.len() + k] == g[k]);
                }
            }
        }
        let cells: usize = if cw == 0 {
            1
        } else {
            cw
        };
        assert(clusters.take(i + 1).drop_last() =~= clusters.take(i as int));
        assert(clusters.take(i + 1).last() == clusters[i as int]);
        if total <= usize::MAX - cells {
            total = total + cells;
        } else {
            total = usize::MAX;
        }
        i += 1;
    }
    assert(clusters.take(gs@.len() as int) =~= clusters);
    proof {
        assert(dv.take(i as int) =~= dv);
        assert(dv.skip(i as int) =~= Seq::<Seq<char>>::empty());
        assert(dv.skip(i as int).flatten() =~= Seq::<char>::empty());
    }
    total
}

} // verus!
