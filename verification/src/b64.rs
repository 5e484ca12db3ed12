//! Base64 text of byte strings, through the `base64` crate.

use base64::Engine;
use vstd::prelude::*;

verus! {

/// The base64 digit for a six-bit value `v`: `A`-`Z`, `a`-`z`, `0`-`9`, `+`,
/// `/`.
pub open spec fn base64_digit(v: int) -> char {
    if v < 26 {
        (65 + v) as char
    } else if v < 52 {
        (97 + (v - 26)) as char
    } else if v < 62 {
        (48 + (v - 52)) as char
    } else if v == 62 {
        '+'
    } else {
        '/'
    }
}

/// The padded standard base64 text (RFC 4648) of `data`: every group of
/// three bytes becomes four digits of six bits each, and a last group of one
/// or two bytes is filled with zero bits and padded with `=` to four
/// characters.
pub open spec fn base64_standard(data: Seq<u8>) -> Seq<char>
    decreases data.len(),
{
    if data.len() == 0 {
        seq![]
    } else if data.len() == 1 {
        let a = data[0] as int;
        seq![base64_digit(a / 4), base64_digit((a % 4) * 16), '=', '=']
    } else if data.len() == 2 {
        let a = data[0] as int;
        let b = data[1] as int;
        seq![base64_digit(a / 4), base64_digit((a % 4) * 16 + b / 16), base64_digit((b % 16) * 4), '=']
    } else {
        let a = data[0] as int;
        let b = data[1] as int;
        let c = data[2] as int;
        seq![
            base64_digit(a / 4),
            base64_digit((a % 4) * 16 + b / 16),
            base64_digit((b % 16) * 4 + c / 64),
            base64_digit(c % 64),
        ] + base64_standard(data.skip(3))
    }
}

/// Length of the padded base64 text of `n` bytes: four characters for every
/// started group of three bytes.
pub open spec fn base64_len(n: nat) -> nat {
    4 * ((n + 2) / 3)
}

/// Characters that padded standard base64 text is made of.
pub open spec fn is_base64_char(c: char) -> bool {
    ||| ('A' <= c && c <= 'Z')
    ||| ('a' <= c && c <= 'z')
    ||| ('0' <= c && c <= '9')
    ||| c == '+'
    ||| c == '/'
    ||| c == '='
}

/// Calls `base64::engine::general_purpose::STANDARD.encode`. The contract
/// claims that the text is `base64_standard(data)`: RFC 4648's standard
/// alphabet with `=` padding. The crate panics when the encoded length
/// overflows `usize`, which `requires` leaves out.
#[verifier::external_body]
fn standard_encode(data: &[u8]) -> (s: String)
    requires
        base64_len(data@.len()) <= usize::MAX,
    ensures
        s@ == base64_standard(data@),
{
    base64::engine::general_purpose::STANDARD.encode(data)
}

/// Padded base64 text is four characters for every started group of three
/// bytes, each a digit of the alphabet or the pad `=`.
pub proof fn base64_shape(data: Seq<u8>)
    ensures
        base64_standard(data).len() == base64_len(data.len()),
        forall|i: int|
            0 <= i < base64_standard(data).len() ==> is_base64_char(#[trigger] base64_standard(data)[i]),
    decreases data.len(),
{
    let t = base64_standard(data);
    if data.len() >= 3 {
        base64_shape(data.skip(3));
        let r = base64_standard(data.skip(3));
        let a = data[0] as int;
        let b = data[1] as int;
        let c = data[2] as int;
        let head = seq![
            base64_digit(a / 4),
            base64_digit((a % 4) * 16 + b / 16),
            base64_digit((b % 16) * 4 + c / 64),
            base64_digit(c % 64),
        ];
        assert(t == head + r);
        assert forall|i: int| 0 <= i < t.len() implies is_base64_char(#[trigger] t[i]) by {
            if i >= 4 {
                assert(t[i] == r[i - 4]);
            }
        }
    }
}

proof fn lemma_digit_value(v: int)
    requires
        0 <= v < 64,
    ensures
        base64_digit(v) != '=',
        v < 26 ==> base64_digit(v) as int == 65 + v,
        26 <= v < 52 ==> base64_digit(v) as int == 97 + (v - 26),
        52 <= v < 62 ==> base64_digit(v) as int == 48 + (v - 52),
        v == 62 ==> base64_digit(v) as int == 43,
        v == 63 ==> base64_digit(v) as int == 47,
{
}

proof fn lemma_digit_injective(u: int, v: int)
    requires
        0 <= u < 64,
        0 <= v < 64,
        base64_digit(u) == base64_digit(v),
    ensures
        u == v,
{
    lemma_digit_value(u);
    lemma_digit_value(v);
}

proof fn lemma_group_injective(a: int, b: int, c: int, p: int, q: int, r: int)
    requires
        0 <= a < 256,
        0 <= b < 256,
        0 <= c < 256,
        0 <= p < 256,
        0 <= q < 256,
        0 <= r < 256,
        a / 4 == p / 4,
        (a % 4) * 16 + b / 16 == (p % 4) * 16 + q / 16,
        (b % 16) * 4 + c / 64 == (q % 16) * 4 + r / 64,
        c % 64 == r % 64,
    ensures
        a == p,
        b == q,
        c == r,
{
    assert(a % 4 == p % 4 && b / 16 == q / 16) by (nonlinear_arith)
        requires
            0 <= b < 256,
            0 <= q < 256,
            0 <= a % 4 < 4,
            0 <= p % 4 < 4,
            (a % 4) * 16 + b / 16 == (p % 4) * 16 + q / 16,
    ;
    assert(b % 16 == q % 16 && c / 64 == r / 64) by (nonlinear_arith)
        requires
            0 <= c < 256,
            0 <= r < 256,
            0 <= b % 16 < 16,
            0 <= q % 16 < 16,
            (b % 16) * 4 + c / 64 == (q % 16) * 4 + r / 64,
    ;
}

/// Different bytes have different base64 texts: the text determines the
/// bytes, so decoding it gives back exactly what was encoded.
pub proof fn base64_is_injective(x: Seq<u8>, y: Seq<u8>)
    requires
        base64_standard(x) == base64_standard(y),
    ensures
        x == y,
    decreases x.len(),
{
    let t = base64_standard(x);
    base64_shape(x);
    base64_shape(y);
    if x.len() == 0 {
        assert(y.len() == 0);
        assert(x =~= y);
    } else if y.len() == 0 {
        assert(false);
    } else {
        let a = x[0] as int;
        let p = y[0] as int;
        lemma_digit_value(a / 4);
        lemma_digit_value(p / 4);
        assert(base64_standard(x)[0] == base64_digit(a / 4));
        assert(base64_standard(y)[0] == base64_digit(p / 4));
        lemma_digit_injective(a / 4, p / 4);
        if x.len() == 1 {
            if y.len() >= 2 {
                let q = y[1] as int;
                lemma_digit_value((q % 16) * 4);
                if y.len() >= 3 {
                    lemma_digit_value((q % 16) * 4 + (y[2] as int) / 64);
                }
                assert(false);
            }
            lemma_digit_injective((a % 4) * 16, (p % 4) * 16);
            lemma_group_injective(a, 0, 0, p, 0, 0);
            assert(x =~= y);
        } else if x.len() == 2 {
            let b = x[1] as int;
            lemma_digit_value((b % 16) * 4);
            if y.len() == 1 {
                assert(false);
            }
            let q = y[1] as int;
            if y.len() >= 3 {
                lemma_digit_value((y[2] as int) % 64);
                assert(false);
            }
            lemma_digit_injective((a % 4) * 16 + b / 16, (p % 4) * 16 + q / 16);
            lemma_digit_injective((b % 16) * 4, (q % 16) * 4);
            lemma_group_injective(a, b, 0, p, q, 0);
            assert(x =~= y);
        } else {
            let b = x[1] as int;
            let c = x[2] as int;
            lemma_digit_value(c % 64);
            lemma_digit_value((b % 16) * 4 + c / 64);
            if y.len() <= 2 {
                assert(false);
            }
            let q = y[1] as int;
            let r = y[2] as int;
            assert(base64_standard(x)[1] == base64_digit((a % 4) * 16 + b / 16));
            assert(base64_standard(y)[1] == base64_digit((p % 4) * 16 + q / 16));
            assert(base64_standard(x)[2] == base64_digit((b % 16) * 4 + c / 64));
            assert(base64_standard(y)[2] == base64_digit((q % 16) * 4 + r / 64));
            assert(base64_standard(x)[3] == base64_digit(c % 64));
            assert(base64_standard(y)[3] == base64_digit(r % 64));
            lemma_digit_injective((a % 4) * 16 + b / 16, (p % 4) * 16 + q / 16);
            lemma_digit_injective((b % 16) * 4 + c / 64, (q % 16) * 4 + r / 64);
            lemma_digit_injective(c % 64, r % 64);
            lemma_group_injective(a, b, c, p, q, r);
            assert(base64_standard(x.skip(3)) =~= t.skip(4));
            assert(base64_standard(y.skip(3)) =~= t.skip(4));
            base64_is_injective(x.skip(3), y.skip(3));
            assert(x =~= seq![x[0], x[1], x[2]] + x.skip(3));
            assert(y =~= seq![y[0], y[1], y[2]] + y.skip(3));
        }
    }
}

/// The padded standard base64 text of `data`: `base64_standard(data)`,
/// `base64_len(data.len())` characters long, each of the alphabet or `=`.
pub(crate) fn encode_standard(data: &[u8]) -> (s: String)
    requires
        base64_len(data@.len()) <= usize::MAX,
    ensures
        s@ == base64_standard(data@),
        s@.len() == base64_len(data@.len()),
        forall|i: int| 0 <= i < s@.len() ==> is_base64_char(#[trigger] s@[i]),
{
    proof {
        base64_shape(data@);
    }
    standard_encode(data)
}

} // verus!
