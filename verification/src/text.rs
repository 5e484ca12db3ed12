//! Small text utilities shared by the renderers: building `String`s from
//! characters, decimal formatting, substring search, and writing UTF-8 text
//! into byte buffers.

use vstd::prelude::*;

verus! {

pub assume_specification[ String::push ](s: &mut String, ch: char)
    ensures
        final(s)@ == old(s)@.push(ch),
;

pub assume_specification[ String::push_str ](s: &mut String, other: &str)
    ensures
        final(s)@ == old(s)@ + other@,
;

pub assume_specification[ String::pop ](s: &mut String) -> (r: Option<char>)
    ensures
        old(s)@.len() == 0 ==> r is None && final(s)@ == old(s)@,
        old(s)@.len() > 0 ==> r == Some(old(s)@.last()) && final(s)@ == old(s)@.drop_last(),
;

/// The escape character `ESC` (0x1b).
pub open spec fn esc() -> char {
    '\x1b'
}

/// The string terminator `ESC \`.
pub open spec fn st() -> Seq<char> {
    seq!['\x1b', '\\']
}

/// The characters of `s`, in order.
pub fn chars_of(s: &str) -> (v: Vec<char>)
    ensures
        v@ == s@,
{
    let mut v: Vec<char> = Vec::new();
    for c in it: s.chars()
        invariant
            v@ == it.seq().take(it.index() as int),
    {
        v.push(c);
    }
    v
}

/// Appends the characters `v[from..to]` to `out`.
pub fn push_chars(out: &mut String, v: &Vec<char>, from: usize, to: usize)
    requires
        from <= to <= v@.len(),
    ensures
        final(out)@ == old(out)@ + v@.subrange(from as int, to as int),
{
    let mut i = from;
    while i < to
        invariant
            from <= i <= to <= v@.len(),
            out@ == old(out)@ + v@.subrange(from as int, i as int),
        decreases to - i,
    {
        out.push(v[i]);
        assert(v@.subrange(from as int, i + 1) == v@.subrange(from as int, i as int).push(v@[i as int]));
        i += 1;
    }
}

/// A `String` holding the characters of `v`.
pub fn string_from_chars(v: &Vec<char>) -> (s: String)
    ensures
        s@ == v@,
{
    let mut s = String::new();
    push_chars(&mut s, v, 0, v.len());
    assert(v@.subrange(0, v@.len() as int) == v@);
    s
}

/// The UTF-8 encoding of `s` appended to `out`.
pub fn write_str(out: &mut Vec<u8>, s: &str)
    ensures
        final(out)@ == old(out)@ + utf8(s@),
{
    let bytes = s.as_bytes();
    let ghost before = out@;
    out.extend_from_slice(bytes);
    assert(out@ =~= before + bytes@);
}

/// Appends the bytes `b` to `out`.
pub fn write_bytes(out: &mut Vec<u8>, b: &[u8])
    ensures
        final(out)@ == old(out)@ + b@,
{
    let ghost before = out@;
    out.extend_from_slice(b);
    assert(out@ =~= before + b@);
}

/// The UTF-8 encoding of a character sequence.
pub open spec fn utf8(s: Seq<char>) -> Seq<u8> {
    vstd::utf8::encode_utf8(s)
}

/// Decimal digit for `d < 10`.
pub open spec fn digit_char(d: nat) -> char {
    if d == 0 { '0' }
    else if d == 1 { '1' }
    else if d == 2 { '2' }
    else if d == 3 { '3' }
    else if d == 4 { '4' }
    else if d == 5 { '5' }
    else if d == 6 { '6' }
    else if d == 7 { '7' }
    else if d == 8 { '8' }
    else { '9' }
}

/// The decimal notation of `n`, without leading zeros (`"0"` for zero).
pub open spec fn decimal(n: nat) -> Seq<char>
    decreases n,
{
    if n < 10 {
        seq![digit_char(n)]
    } else {
        decimal(n / 10).push(digit_char(n % 10))
    }
}

/// The decimal notation of a signed integer, with a leading `-` when negative.
pub open spec fn decimal_signed(n: int) -> Seq<char> {
    if n < 0 {
        seq!['-'] + decimal((-n) as nat)
    } else {
        decimal(n as nat)
    }
}

fn digit(d: u64) -> (c: char)
    requires
        d < 10,
    ensures
        c == digit_char(d as nat),
{
    if d == 0 { '0' }
    else if d == 1 { '1' }
    else if d == 2 { '2' }
    else if d == 3 { '3' }
    else if d == 4 { '4' }
    else if d == 5 { '5' }
    else if d == 6 { '6' }
    else if d == 7 { '7' }
    else if d == 8 { '8' }
    else { '9' }
}

/// Appends the decimal notation of `n` to `out`.
pub fn push_decimal(out: &mut String, n: u64)
    ensures
        final(out)@ == old(out)@ + decimal(n as nat),
    decreases n,
{
    if n >= 10 {
        push_decimal(out, n / 10);
    }
    let c = digit(n % 10);
    out.push(c);
}

/// Appends the decimal notation of the signed `n` to `out`.
pub fn push_decimal_signed(out: &mut String, n: i64)
    ensures
        final(out)@ == old(out)@ + decimal_signed(n as int),
{
    if n < 0 {
        out.push('-');
        let m: u64 = if n == i64::MIN {
            9223372036854775808u64
        } else {
            (-n) as u64
        };
        push_decimal(out, m);
    } else {
        push_decimal(out, n as u64);
    }
}

/// Whether `needle` occurs in `hay` starting at position `i`.
pub open spec fn occurs_at<T>(hay: Seq<T>, needle: Seq<T>, i: int) -> bool {
    0 <= i && i + needle.len() <= hay.len() && hay.subrange(i, i + needle.len()) == needle
}

/// Whether `needle` occurs somewhere in `hay`.
pub open spec fn contains<T>(hay: Seq<T>, needle: Seq<T>) -> bool {
    exists|i: int| occurs_at(hay, needle, i)
}

fn matches_at(hay: &Vec<char>, needle: &Vec<char>, i: usize) -> (r: bool)
    requires
        i + needle@.len() <= hay@.len(),
    ensures
        r == occurs_at(hay@, needle@, i as int),
{
    let hl = hay.len();
    let mut j: usize = 0;
    while j < needle.len()
        invariant
            hl == hay@.len(),
            i + needle@.len() <= hay@.len(),
            j <= needle@.len(),
            forall|k: int| 0 <= k < j ==> hay@[i + k] == needle@[k],
        decreases needle@.len() - j,
    {
        if hay[i + j] != needle[j] {
            assert(hay@.subrange(i as int, i + needle@.len())[j as int] != needle@[j as int]);
            return false;
        }
        j += 1;
    }
    assert(hay@.subrange(i as int, i + needle@.len()) =~= needle@);
    true
}

/// Whether `needle` occurs in `hay`.
pub fn str_contains(hay: &str, needle: &str) -> (r: bool)
    ensures
        r == contains(hay@, needle@),
{
    let h = chars_of(hay);
    let n = chars_of(needle);
    if n.len() > h.len() {
        assert(!contains(hay@, needle@));
        return false;
    }
    let last = h.len() - n.len();
    let mut i: usize = 0;
    loop
        invariant
            h@ == hay@,
            n@ == needle@,
            last == h@.len() - n@.len(),
            i <= last,
            forall|k: int| 0 <= k < i ==> !occurs_at(hay@, needle@, k),
        decreases last - i,
    {
        if matches_at(&h, &n, i) {
            return true;
        }
        if i == last {
            assert forall|k: int| !occurs_at(hay@, needle@, k) by {
                if 0 <= k && k + needle@.len() <= hay@.len() {
                    assert(k <= i);
                }
            }
            return false;
        }
        i += 1;
    }
}

/// Whether `a` and `b` hold the same characters.
pub fn str_eq(a: &str, b: &str) -> (r: bool)
    ensures
        r == (a@ == b@),
{
    let x = chars_of(a);
    let y = chars_of(b);
    if x.len() != y.len() {
        return false;
    }
    let mut i: usize = 0;
    while i < x.len()
        invariant
            x@ == a@,
            y@ == b@,
            x@.len() == y@.len(),
            i <= x@.len(),
            forall|k: int| 0 <= k < i ==> x@[k] == y@[k],
        decreases x@.len() - i,
    {
        if x[i] != y[i] {
            return false;
        }
        i += 1;
    }
    assert(x@ =~= y@);
    true
}

fn bytes_match_at(hay: &[u8], needle: &[u8], i: usize) -> (r: bool)
    requires
        i + needle@.len() <= hay@.len(),
    ensures
        r == occurs_at(hay@, needle@, i as int),
{
    let hl = hay.len();
    let mut j: usize = 0;
    while j < needle.len()
        invariant
            hl == hay@.len(),
            i + needle@.len() <= hay@.len(),
            j <= needle@.len(),
            forall|k: int| 0 <= k < j ==> hay@[i + k] == needle@[k],
        decreases needle@.len() - j,
    {
        if hay[i + j] != needle[j] {
            assert(hay@.subrange(i as int, i + needle@.len())[j as int] != needle@[j as int]);
            return false;
        }
        j += 1;
    }
    assert(hay@.subrange(i as int, i + needle@.len()) =~= needle@);
    true
}

/// Whether the byte string `needle` occurs in `hay`.
pub fn bytes_contain(hay: &[u8], needle: &[u8]) -> (r: bool)
    ensures
        r == contains(hay@, needle@),
{
    if needle.len() > hay.len() {
        assert(!contains(hay@, needle@));
        return false;
    }
    let last = hay.len() - needle.len();
    let mut i: usize = 0;
    loop
        invariant
            last == hay@.len() - needle@.len(),
            i <= last,
            forall|k: int| 0 <= k < i ==> !occurs_at(hay@, needle@, k),
        decreases last - i,
    {
        if bytes_match_at(hay, needle, i) {
            return true;
        }
        if i == last {
            assert forall|k: int| !occurs_at(hay@, needle@, k) by {
                if 0 <= k && k + needle@.len() <= hay@.len() {
                    assert(k <= i);
                }
            }
            return false;
        }
        i += 1;
    }
}

/// Unicode `White_Space` characters (what `char::is_whitespace` accepts).
pub open spec fn is_white_space(c: char) -> bool {
    ||| ('\u{9}' <= c && c <= '\u{d}')
    ||| c == ' '
    ||| c == '\u{85}'
    ||| c == '\u{a0}'
    ||| c == '\u{1680}'
    ||| ('\u{2000}' <= c && c <= '\u{200a}')
    ||| c == '\u{2028}'
    ||| c == '\u{2029}'
    ||| c == '\u{202f}'
    ||| c == '\u{205f}'
    ||| c == '\u{3000}'
}

/// Whether `c` is a Unicode `White_Space` character.
pub fn white_space(c: char) -> (r: bool)
    ensures
        r == is_white_space(c),
{
    ('\u{9}' <= c && c <= '\u{d}') || c == ' ' || c == '\u{85}' || c == '\u{a0}' || c == '\u{1680}'
        || ('\u{2000}' <= c && c <= '\u{200a}') || c == '\u{2028}' || c == '\u{2029}' || c
        == '\u{202f}' || c == '\u{205f}' || c == '\u{3000}'
}

/// Index of the first non-white-space character of `s` at or after `i`.
pub open spec fn skip_ws(s: Seq<char>, i: int) -> int
    decreases s.len() - i,
{
    if 0 <= i < s.len() && is_white_space(s[i]) {
        skip_ws(s, i + 1)
    } else {
        i
    }
}

/// Index just past the run of non-white-space characters starting at `i`.
pub open spec fn word_end(s: Seq<char>, i: int) -> int
    decreases s.len() - i,
{
    if 0 <= i < s.len() && !is_white_space(s[i]) {
        word_end(s, i + 1)
    } else {
        i
    }
}

pub proof fn lemma_skip_ws(s: Seq<char>, i: int)
    requires
        0 <= i <= s.len(),
    ensures
        i <= skip_ws(s, i) <= s.len(),
        forall|k: int| i <= k < skip_ws(s, i) ==> is_white_space(#[trigger] s[k]),
        skip_ws(s, i) < s.len() ==> !is_white_space(s[skip_ws(s, i)]),
    decreases s.len() - i,
{
    if i < s.len() && is_white_space(s[i]) {
        lemma_skip_ws(s, i + 1);
    }
}

pub proof fn lemma_word_end(s: Seq<char>, i: int)
    requires
        0 <= i <= s.len(),
    ensures
        i <= word_end(s, i) <= s.len(),
        forall|k: int| i <= k < word_end(s, i) ==> !is_white_space(#[trigger] s[k]),
        word_end(s, i) < s.len() ==> is_white_space(s[word_end(s, i)]),
    decreases s.len() - i,
{
    if i < s.len() && !is_white_space(s[i]) {
        lemma_word_end(s, i + 1);
    }
}

/// The white-space separated words of `s[i..]`, in order, as
/// `str::split_whitespace` yields them.
pub open spec fn words_from(s: Seq<char>, i: int) -> Seq<Seq<char>>
    decreases s.len() - i,
{
    if i < 0 || i >= s.len() {
        seq![]
    } else {
        let j = skip_ws(s, i);
        if j >= s.len() {
            seq![]
        } else {
            let k = word_end(s, j);
            proof {
                lemma_skip_ws(s, i);
                lemma_word_end(s, j);
            }
            seq![s.subrange(j, k)] + words_from(s, k)
        }
    }
}

/// The white-space separated words of `s`.
pub open spec fn words_of(s: Seq<char>) -> Seq<Seq<char>> {
    words_from(s, 0)
}

/// The white-space separated words of `s`, in order.
pub fn words(s: &str) -> (r: Vec<String>)
    ensures
        r.deep_view() == words_of(s@),
{
    let c = chars_of(s);
    let n = c.len();
    let mut r: Vec<String> = Vec::new();
    let mut i: usize = 0;
    while i < n
        invariant
            c@ == s@,
            n == c@.len(),
            i <= n,
            r.deep_view() + words_from(c@, i as int) == words_of(s@),
        decreases n - i,
    {
        let mut j = i;
        while j < n && white_space(c[j])
            invariant
                c@ == s@,
                n == c@.len(),
                i <= j <= n,
                skip_ws(c@, i as int) == skip_ws(c@, j as int),
            decreases n - j,
        {
            j += 1;
        }
        if j >= n {
            assert(words_from(c@, i as int) =~= Seq::<Seq<char>>::empty());
            i = n;
        } else {
            let mut k = j;
            while k < n && !white_space(c[k])
                invariant
                    c@ == s@,
                    n == c@.len(),
                    j <= k <= n,
                    word_end(c@, j as int) == word_end(c@, k as int),
                decreases n - k,
            {
                k += 1;
            }
            let mut w = String::new();
            push_chars(&mut w, &c, j, k);
            let ghost before = r.deep_view();
            r.push(w);
            assert(r.deep_view() =~= before.push(c@.subrange(j as int, k as int)));
            assert(words_from(c@, i as int) == seq![c@.subrange(j as int, k as int)] + words_from(
                c@,
                k as int,
            ));
            assert(r.deep_view() + words_from(c@, k as int) =~= before + words_from(c@, i as int));
            i = k;
        }
    }
    assert(words_from(c@, i as int) =~= Seq::<Seq<char>>::empty());
    assert(r.deep_view() =~= r.deep_view() + words_from(c@, i as int));
    r
}

/// Index of the first `\n` of `s` at or after `i`, or `s.len()`.
pub open spec fn line_end(s: Seq<char>, i: int) -> int
    decreases s.len() - i,
{
    if 0 <= i < s.len() && s[i] != '\n' {
        line_end(s, i + 1)
    } else {
        i
    }
}

pub proof fn lemma_line_end(s: Seq<char>, i: int)
    requires
        0 <= i <= s.len(),
    ensures
        i <= line_end(s, i) <= s.len(),
        forall|k: int| i <= k < line_end(s, i) ==> #[trigger] s[k] != '\n',
        line_end(s, i) < s.len() ==> s[line_end(s, i)] == '\n',
    decreases s.len() - i,
{
    if i < s.len() && s[i] != '\n' {
        lemma_line_end(s, i + 1);
    }
}

/// The line `s[i..j]` without the `\r` of a `\r\n` ending (`j` at a `\n`).
pub open spec fn line_text(s: Seq<char>, i: int, j: int) -> Seq<char> {
    if j < s.len() && j > i && s[j - 1] == '\r' {
        s.subrange(i, j - 1)
    } else {
        s.subrange(i, j)
    }
}

/// The lines of `s[i..]`, as `str::lines` yields them: split at `\n`, a
/// `\r` before the `\n` dropped, no empty line after a final `\n`.
pub open spec fn lines_from(s: Seq<char>, i: int) -> Seq<Seq<char>>
    decreases s.len() - i,
{
    if i < 0 || i >= s.len() {
        seq![]
    } else {
        let j = line_end(s, i);
        proof {
            lemma_line_end(s, i);
        }
        if j >= s.len() {
            seq![line_text(s, i, j)]
        } else {
            seq![line_text(s, i, j)] + lines_from(s, j + 1)
        }
    }
}

/// The lines of `s`.
pub open spec fn lines_of(s: Seq<char>) -> Seq<Seq<char>> {
    lines_from(s, 0)
}

/// The lines of `s`, in order.
pub fn lines(s: &str) -> (r: Vec<String>)
    ensures
        r.deep_view() == lines_of(s@),
{
    let c = chars_of(s);
    let n = c.len();
    let mut r: Vec<String> = Vec::new();
    let mut i: usize = 0;
    while i < n
        invariant
            c@ == s@,
            n == c@.len(),
            i <= n,
            r.deep_view() + lines_from(c@, i as int) == lines_of(s@),
        decreases n - i,
    {
        let mut j = i;
        while j < n && c[j] != '\n'
            invariant
                c@ == s@,
                n == c@.len(),
                i <= j <= n,
                line_end(c@, i as int) == line_end(c@, j as int),
            decreases n - j,
        {
            j += 1;
        }
        let stop = if j < n && j > i && c[j - 1] == '\r' {
            j - 1
        } else {
            j
        };
        let mut line = String::new();
        push_chars(&mut line, &c, i, stop);
        assert(line@ == line_text(c@, i as int, j as int));
        let ghost before = r.deep_view();
        r.push(line);
        assert(r.deep_view() =~= before.push(line_text(c@, i as int, j as int)));
        if j >= n {
            assert(lines_from(c@, i as int) == seq![line_text(c@, i as int, j as int)]);
            assert(r.deep_view() =~= before + lines_from(c@, i as int));
            assert(lines_from(c@, n as int) =~= Seq::<Seq<char>>::empty());
            assert(r.deep_view() =~= r.deep_view() + lines_from(c@, n as int));
            i = n;
        } else {
            assert(lines_from(c@, i as int) == seq![line_text(c@, i as int, j as int)] + lines_from(
                c@,
                j + 1,
            ));
            assert(r.deep_view() + lines_from(c@, j + 1) =~= before + lines_from(c@, i as int));
            i = j + 1;
        }
    }
    assert(lines_from(c@, i as int) =~= Seq::<Seq<char>>::empty());
    assert(r.deep_view() =~= r.deep_view() + lines_from(c@, i as int));
    r
}

/// The strings `ls` joined by `sep`.
pub open spec fn joined(ls: Seq<Seq<char>>, sep: Seq<char>) -> Seq<char>
    decreases ls.len(),
{
    if ls.len() == 0 {
        seq![]
    } else if ls.len() == 1 {
        ls[0]
    } else {
        joined(ls.drop_last(), sep) + sep + ls.last()
    }
}

/// The strings `ls` joined by the separator `sep`.
pub fn join_strings(ls: &Vec<String>, sep: char) -> (r: String)
    ensures
        r@ == joined(ls.deep_view(), seq![sep]),
{
    let mut r = String::new();
    let mut i: usize = 0;
    while i < ls.len()
        invariant
            i <= ls@.len(),
            r@ == joined(ls.deep_view().take(i as int), seq![sep]),
        decreases ls@.len() - i,
    {
        if i > 0 {
            r.push(sep);
        }
        r.push_str(ls[i].as_str());
        assert(ls.deep_view().take(i + 1).drop_last() =~= ls.deep_view().take(i as int));
        i += 1;
    }
    assert(ls.deep_view().take(i as int) =~= ls.deep_view());
    r
}

/// Whether `s` starts with `p`.
pub open spec fn starts_with<T>(s: Seq<T>, p: Seq<T>) -> bool {
    p.len() <= s.len() && s.subrange(0, p.len() as int) == p
}

/// Whether `s` starts with `p`.
pub fn str_starts_with(s: &str, p: &str) -> (r: bool)
    ensures
        r == starts_with(s@, p@),
{
    let a = chars_of(s);
    let b = chars_of(p);
    if b.len() > a.len() {
        return false;
    }
    let mut i: usize = 0;
    while i < b.len()
        invariant
            a@ == s@,
            b@ == p@,
            b@.len() <= a@.len(),
            i <= b@.len(),
            forall|k: int| 0 <= k < i ==> a@[k] == b@[k],
        decreases b@.len() - i,
    {
        if a[i] != b[i] {
            assert(a@.subrange(0, b@.len() as int)[i as int] != b@[i as int]);
            return false;
        }
        i += 1;
    }
    assert(a@.subrange(0, b@.len() as int) =~= b@);
    true
}

/// Number of leading white-space characters of `s`.
pub open spec fn leading_ws(s: Seq<char>) -> nat
    decreases s.len(),
{
    if s.len() > 0 && is_white_space(s[0]) {
        1 + leading_ws(s.drop_first())
    } else {
        0
    }
}

/// Number of trailing white-space characters of `s`.
pub open spec fn trailing_ws(s: Seq<char>) -> nat
    decreases s.len(),
{
    if s.len() > 0 && is_white_space(s.last()) {
        1 + trailing_ws(s.drop_last())
    } else {
        0
    }
}

/// `s` without leading and trailing white space (what `str::trim` gives).
pub open spec fn trimmed(s: Seq<char>) -> Seq<char> {
    let front = s.skip(leading_ws(s) as int);
    front.take(front.len() - trailing_ws(front))
}

pub proof fn lemma_leading_ws(s: Seq<char>, i: int)
    requires
        0 <= i <= s.len(),
        forall|k: int| 0 <= k < i ==> is_white_space(#[trigger] s[k]),
        i == s.len() || !is_white_space(s[i]),
    ensures
        leading_ws(s) == i,
    decreases i,
{
    if i > 0 {
        lemma_leading_ws(s.drop_first(), i - 1);
    }
}

pub proof fn lemma_trailing_ws(s: Seq<char>, j: int)
    requires
        0 <= j <= s.len(),
        forall|k: int| j <= k < s.len() ==> is_white_space(#[trigger] s[k]),
        j == 0 || !is_white_space(s[j - 1]),
    ensures
        trailing_ws(s) == s.len() - j,
    decreases s.len() - j,
{
    if j < s.len() {
        lemma_trailing_ws(s.drop_last(), j);
    }
}

/// The characters of `s` without leading and trailing white space.
pub fn trim_chars(s: &str) -> (r: Vec<char>)
    ensures
        r@ == trimmed(s@),
{
    let v = chars_of(s);
    let n = v.len();
    let mut i: usize = 0;
    while i < n && white_space(v[i])
        invariant
            v@ == s@,
            n == v@.len(),
            i <= n,
            forall|k: int| 0 <= k < i ==> is_white_space(#[trigger] v@[k]),
        decreases n - i,
    {
        i += 1;
    }
    proof {
        lemma_leading_ws(v@, i as int);
    }
    let mut j: usize = n;
    while j > i && white_space(v[j - 1])
        invariant
            v@ == s@,
            n == v@.len(),
            i <= j <= n,
            forall|k: int| j <= k < n ==> is_white_space(#[trigger] v@[k]),
        decreases j,
    {
        j -= 1;
    }
    let ghost front = v@.skip(i as int);
    proof {
        assert forall|k: int| j - i <= k < front.len() implies is_white_space(#[trigger] front[k]) by {
            assert(front[k] == v@[k + i]);
        }
        if j > i {
            assert(front[j - i - 1] == v@[j - 1]);
        }
        lemma_trailing_ws(front, j - i);
    }
    let mut r: Vec<char> = Vec::new();
    let mut k: usize = i;
    while k < j
        invariant
            v@ == s@,
            i <= k <= j <= n,
            n == v@.len(),
            r@ == v@.subrange(i as int, k as int),
        decreases j - k,
    {
        r.push(v[k]);
        assert(v@.subrange(i as int, k + 1) =~= v@.subrange(i as int, k as int).push(v@[k as int]));
        k += 1;
    }
    assert(r@ =~= trimmed(s@));
    r
}

/// Whether `c` is an ASCII decimal digit.
pub open spec fn is_digit(c: char) -> bool {
    '0' <= c && c <= '9'
}

/// The value of a string of decimal digits.
pub open spec fn digits_value(s: Seq<char>) -> nat
    decreases s.len(),
{
    if s.len() == 0 {
        0
    } else {
        digits_value(s.drop_last()) * 10 + ((s.last() as u32) - ('0' as u32)) as nat
    }
}

/// The digits `usize`'s `FromStr` accepts: an optional `+` followed by one or
/// more decimal digits.
pub open spec fn unsigned_digits(s: Seq<char>) -> Option<Seq<char>> {
    if digit_part(s).len() > 0 && all_digits(digit_part(s)) {
        Some(digit_part(s))
    } else {
        None
    }
}

/// `s` without a leading `+`.
pub open spec fn digit_part(s: Seq<char>) -> Seq<char> {
    if s.len() > 0 && s[0] == '+' {
        s.drop_first()
    } else {
        s
    }
}

/// Whether every character of `d` is a decimal digit.
pub open spec fn all_digits(d: Seq<char>) -> bool {
    forall|k: int| 0 <= k < d.len() ==> is_digit(#[trigger] d[k])
}

/// What parsing `s` as a `usize` gives: the value of its digits when it is
/// well formed and fits.
pub open spec fn parsed_usize(s: Seq<char>) -> Option<usize> {
    match unsigned_digits(s) {
        Some(d) => if digits_value(d) <= usize::MAX {
            Some(digits_value(d) as usize)
        } else {
            None
        },
        None => None,
    }
}

/// What parsing `s` as a `u64` gives: the value of its digits when it is
/// well formed and fits.
pub open spec fn parsed_u64(s: Seq<char>) -> Option<u64> {
    match unsigned_digits(s) {
        Some(d) => if digits_value(d) <= u64::MAX {
            Some(digits_value(d) as u64)
        } else {
            None
        },
        None => None,
    }
}

pub proof fn lemma_digits_value_monotone(s: Seq<char>, i: int)
    requires
        0 <= i <= s.len(),
        forall|k: int| 0 <= k < s.len() ==> is_digit(#[trigger] s[k]),
    ensures
        digits_value(s.take(i)) <= digits_value(s),
    decreases s.len() - i,
{
    if i < s.len() {
        lemma_digits_value_monotone(s, i + 1);
        assert(s.take(i + 1).drop_last() =~= s.take(i));
        assert(digits_value(s.take(i)) <= digits_value(s.take(i + 1))) by (nonlinear_arith)
            requires
                digits_value(s.take(i + 1)) == digits_value(s.take(i)) * 10 + ((s.take(i + 1).last() as u32) - ('0' as u32)) as nat,
        ;
    } else {
        assert(s.take(i) =~= s);
    }
}

/// Parses `s` as `usize` does: an optional `+`, then decimal digits, with no
/// overflow.
pub fn parse_usize(s: &[char]) -> (r: Option<usize>)
    ensures
        r == parsed_usize(s@),
{
    let n = s.len();
    let start: usize = if n > 0 && s[0] == '+' {
        1
    } else {
        0
    };
    let ghost d = digit_part(s@);
    assert(d =~= s@.subrange(start as int, n as int));
    if start == n {
        return None;
    }
    let mut k: usize = start;
    while k < n
        invariant
            start <= k <= n,
            n == s@.len(),
            d =~= s@.subrange(start as int, n as int),
            d == digit_part(s@),
            forall|j: int| start <= j < k ==> is_digit(#[trigger] s@[j]),
        decreases n - k,
    {
        if !(s[k] >= '0' && s[k] <= '9') {
            assert(!is_digit(d[k - start]));
            assert(!all_digits(d));
            assert(d == digit_part(s@));
            assert(!all_digits(digit_part(s@)));
            assert(unsigned_digits(s@) is None);
            return None;
        }
        k += 1;
    }
    assert forall|j: int| 0 <= j < d.len() implies is_digit(#[trigger] d[j]) by {
        assert(d[j] == s@[j + start]);
    }
    let mut value: usize = 0;
    let mut i: usize = start;
    while i < n
        invariant
            start <= i <= n,
            n == s@.len(),
            d =~= s@.subrange(start as int, n as int),
            d == digit_part(s@),
            forall|j: int| 0 <= j < d.len() ==> is_digit(#[trigger] d[j]),
            value as nat == digits_value(d.take(i - start)),
        decreases n - i,
    {
        let c = s[i];
        assert(c == d[i - start]);
        let dv = (c as u32 - '0' as u32) as usize;
        assert(d.take(i - start + 1).drop_last() =~= d.take(i - start));
        assert(d.take(i - start + 1).last() == c);
        if value > (usize::MAX - dv) / 10 {
            proof {
                assert(value * 10 + dv > usize::MAX) by (nonlinear_arith)
                    requires
                        value > (usize::MAX - dv) / 10,
                        dv <= 9,
                ;
                lemma_digits_value_monotone(d, i - start + 1);
                assert(digits_value(d.take(i - start + 1)) == digits_value(d.take(i - start)) * 10
                    + dv);
                assert(unsigned_digits(s@) == Some(d));
            }
            return None;
        }
        assert(value * 10 + dv <= usize::MAX) by (nonlinear_arith)
            requires
                value <= (usize::MAX - dv) / 10,
                dv <= 9,
        ;
        value = value * 10 + dv;
        i += 1;
    }
    assert(d.take(n - start) =~= d);
    Some(value)
}

/// Parses `s` as `u64` does: an optional `+`, then decimal digits, with no
/// overflow.
pub fn parse_u64(s: &[char]) -> (r: Option<u64>)
    ensures
        r == parsed_u64(s@),
{
    let n = s.len();
    let start: usize = if n > 0 && s[0] == '+' {
        1
    } else {
        0
    };
    let ghost d = digit_part(s@);
    assert(d =~= s@.subrange(start as int, n as int));
    if start == n {
        return None;
    }
    let mut k: usize = start;
    while k < n
        invariant
            start <= k <= n,
            n == s@.len(),
            d =~= s@.subrange(start as int, n as int),
            d == digit_part(s@),
            forall|j: int| start <= j < k ==> is_digit(#[trigger] s@[j]),
        decreases n - k,
    {
        if !(s[k] >= '0' && s[k] <= '9') {
            assert(!is_digit(d[k - start]));
            assert(!all_digits(d));
            assert(d == digit_part(s@));
            assert(!all_digits(digit_part(s@)));
            assert(unsigned_digits(s@) is None);
            return None;
        }
        k += 1;
    }
    assert forall|j: int| 0 <= j < d.len() implies is_digit(#[trigger] d[j]) by {
        assert(d[j] == s@[j + start]);
    }
    let mut value: u64 = 0;
    let mut i: usize = start;
    while i < n
        invariant
            start <= i <= n,
            n == s@.len(),
            d =~= s@.subrange(start as int, n as int),
            d == digit_part(s@),
            forall|j: int| 0 <= j < d.len() ==> is_digit(#[trigger] d[j]),
            value as nat == digits_value(d.take(i - start)),
        decreases n - i,
    {
        let c = s[i];
        assert(c == d[i - start]);
        let dv = (c as u32 - '0' as u32) as u64;
        assert(d.take(i - start + 1).drop_last() =~= d.take(i - start));
        assert(d.take(i - start + 1).last() == c);
        if value > (u64::MAX - dv) / 10 {
            proof {
                assert(value * 10 + dv > u64::MAX) by (nonlinear_arith)
                    requires
                        value > (u64::MAX - dv) / 10,
                        dv <= 9,
                ;
                lemma_digits_value_monotone(d, i - start + 1);
                assert(digits_value(d.take(i - start + 1)) == digits_value(d.take(i - start)) * 10
                    + dv);
                assert(unsigned_digits(s@) == Some(d));
            }
            return None;
        }
        assert(value * 10 + dv <= u64::MAX) by (nonlinear_arith)
            requires
                value <= (u64::MAX - dv) / 10,
                dv <= 9,
        ;
        value = value * 10 + dv;
        i += 1;
    }
    assert(d.take(n - start) =~= d);
    Some(value)
}

} // verus!
