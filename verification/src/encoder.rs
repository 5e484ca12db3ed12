//! Kitty graphics protocol encoder.
//!
//! Format (per the kitty graphics protocol):
//!
//! ```text
//! ESC _ G <control> ; <payload> ESC \
//! ```
//!
//! PNG transmit-and-display uses `a=T,f=100`. When the base64 payload exceeds
//! 4096 bytes it is split across several APC frames with `m=1` on every frame
//! except the last, which carries `m=0`. `q=2` silences the terminal's
//! OK/error responses.

use vstd::prelude::*;
use vstd::utf8::is_ascii_chars;

use crate::b64::{base64_is_injective, base64_len, base64_standard, encode_standard};
use crate::text::{utf8, write_bytes, write_str};
use crate::EmitError;

verus! {

/// Maximum base64 payload bytes per APC frame (kitty's hard cap).
pub const MAX_CHUNK: usize = 4096;

/// Control keys of a frame: the first frame carries the format keys, later
/// frames only `m`; `m=1` marks a frame that more frames follow.
pub open spec fn frame_header(first: bool, last: bool) -> Seq<u8> {
    if first {
        if last {
            utf8("\x1b_Ga=T,f=100,q=2,m=0;"@)
        } else {
            utf8("\x1b_Ga=T,f=100,q=2,m=1;"@)
        }
    } else if last {
        utf8("\x1b_Gm=0;"@)
    } else {
        utf8("\x1b_Gm=1;"@)
    }
}

/// End of a chunk starting at `off`.
pub open spec fn chunk_end(p: Seq<u8>, off: int) -> int {
    if off + MAX_CHUNK < p.len() {
        off + MAX_CHUNK
    } else {
        p.len() as int
    }
}

/// The frames carrying `p[off..]`, at most `MAX_CHUNK` payload bytes each.
pub open spec fn chunk_frames(p: Seq<u8>, off: int) -> Seq<u8>
    decreases p.len() - off,
{
    if off < 0 || off >= p.len() {
        seq![]
    } else {
        let end = chunk_end(p, off);
        frame_header(off == 0, end == p.len()) + p.subrange(off, end) + utf8("\x1b\\"@)
            + chunk_frames(p, end)
    }
}

/// The payload pieces of the frames carrying `p[off..]`, in order.
pub open spec fn chunk_payloads(p: Seq<u8>, off: int) -> Seq<Seq<u8>>
    decreases p.len() - off,
{
    if off < 0 || off >= p.len() {
        seq![]
    } else {
        let end = chunk_end(p, off);
        seq![p.subrange(off, end)] + chunk_payloads(p, end)
    }
}

/// Frames carrying the payloads `ps` in order; `first` says whether the first
/// of them opens the image and so carries the format keys.
pub open spec fn frames_of(ps: Seq<Seq<u8>>, first: bool) -> Seq<u8>
    decreases ps.len(),
{
    if ps.len() == 0 {
        seq![]
    } else {
        frame_header(first, ps.len() == 1) + ps[0] + utf8("\x1b\\"@) + frames_of(ps.drop_first(), false)
    }
}

proof fn lemma_chunk_payloads(p: Seq<u8>, off: int)
    requires
        0 <= off <= p.len(),
    ensures
        chunk_payloads(p, off).flatten() =~= p.subrange(off, p.len() as int),
        forall|i: int|
            0 <= i < chunk_payloads(p, off).len() ==> 0 < (#[trigger] chunk_payloads(p, off)[i]).len()
                <= MAX_CHUNK,
        forall|i: int|
            0 <= i < chunk_payloads(p, off).len() - 1 ==> (#[trigger] chunk_payloads(p, off)[i]).len()
                == MAX_CHUNK,
        (p.len() - off) % 4 == 0 ==> forall|i: int|
            0 <= i < chunk_payloads(p, off).len() ==> (#[trigger] chunk_payloads(p, off)[i]).len() % 4
                == 0,
        chunk_frames(p, off) == frames_of(chunk_payloads(p, off), off == 0),
    decreases p.len() - off,
{
    let ps = chunk_payloads(p, off);
    if off < p.len() {
        let end = chunk_end(p, off);
        let a = p.subrange(off, end);
        let rest = chunk_payloads(p, end);
        lemma_chunk_payloads(p, end);
        assert(ps == seq![a] + rest);
        assert(ps.first() == a);
        assert(ps.drop_first() =~= rest);
        assert(ps.flatten() == a + rest.flatten());
        assert(a + p.subrange(end, p.len() as int) =~= p.subrange(off, p.len() as int));
        assert forall|i: int| 0 <= i < ps.len() implies 0 < (#[trigger] ps[i]).len() <= MAX_CHUNK by {
            if i > 0 {
                assert(ps[i] == rest[i - 1]);
            }
        }
        assert forall|i: int| 0 <= i < ps.len() - 1 implies (#[trigger] ps[i]).len() == MAX_CHUNK by {
            if i > 0 {
                assert(ps[i] == rest[i - 1]);
            } else {
                assert(rest.len() > 0);
            }
        }
        if (p.len() - off) % 4 == 0 {
            assert forall|i: int| 0 <= i < ps.len() implies (#[trigger] ps[i]).len() % 4 == 0 by {
                if i > 0 {
                    assert(ps[i] == rest[i - 1]);
                }
            }
        }
        assert(rest.len() == 0 <==> end == p.len());
        assert(frames_of(ps, off == 0) == frame_header(off == 0, ps.len() == 1) + a + utf8(
            "\x1b\\"@,
        ) + frames_of(rest, false));
        assert(end > 0);
    } else {
        assert(ps.len() == 0);
        assert(p.subrange(off, p.len() as int) =~= Seq::<u8>::empty());
    }
}

/// The frame payloads of a chunked payload, joined in order, are the payload:
/// splitting loses, repeats and reorders nothing.
pub proof fn chunks_reassemble(p: Seq<u8>)
    ensures
        chunk_payloads(p, 0).flatten() == p,
{
    lemma_chunk_payloads(p, 0);
    assert(p.subrange(0, p.len() as int) =~= p);
}

/// The frame payloads of an image, joined in order, are the base64 text of
/// its PNG bytes and of nothing else: the only bytes whose base64 text reads
/// as the joined payloads are the PNG's, so decoding them gives the PNG back.
pub proof fn payloads_decode_to_the_png(png: Seq<u8>, x: Seq<u8>)
    ensures
        chunk_payloads(utf8(base64_standard(png)), 0).flatten() == utf8(base64_standard(png)),
        utf8(base64_standard(x)) == chunk_payloads(utf8(base64_standard(png)), 0).flatten() ==> x == png,
{
    chunks_reassemble(utf8(base64_standard(png)));
    if utf8(base64_standard(x)) == utf8(base64_standard(png)) {
        vstd::utf8::encode_utf8_decode_utf8(base64_standard(x));
        vstd::utf8::encode_utf8_decode_utf8(base64_standard(png));
        base64_is_injective(x, png);
    }
}

/// No frame carries an empty payload or more than `MAX_CHUNK` bytes of it, and
/// every frame but the last is full.
pub proof fn chunks_respect_max_size(p: Seq<u8>)
    ensures
        forall|i: int|
            0 <= i < chunk_payloads(p, 0).len() ==> 0 < (#[trigger] chunk_payloads(p, 0)[i]).len()
                <= MAX_CHUNK,
        forall|i: int|
            0 <= i < chunk_payloads(p, 0).len() - 1 ==> (#[trigger] chunk_payloads(p, 0)[i]).len()
                == MAX_CHUNK,
{
    lemma_chunk_payloads(p, 0);
}

/// A payload whose length is a multiple of 4, as base64 text is, is cut only
/// at multiples of 4: every frame payload is itself whole base64 groups.
pub proof fn chunks_keep_base64_alignment(p: Seq<u8>)
    requires
        p.len() % 4 == 0,
    ensures
        forall|i: int|
            0 <= i < chunk_payloads(p, 0).len() ==> (#[trigger] chunk_payloads(p, 0)[i]).len() % 4
                == 0,
{
    lemma_chunk_payloads(p, 0);
}

/// A payload over `MAX_CHUNK` bytes goes out as the frames of its pieces: the
/// first frame carries the format keys, every frame `m=1` but the last, which
/// carries `m=0`, and a newline follows.
pub proof fn chunked_output_is_frames(p: Seq<u8>)
    requires
        p.len() > MAX_CHUNK,
    ensures
        kitty_output(p) == frames_of(chunk_payloads(p, 0), true) + utf8("\n"@),
        chunk_payloads(p, 0).len() > 1,
{
    lemma_chunk_payloads(p, 0);
    assert(chunk_payloads(p, 0)[0].len() <= MAX_CHUNK);
    if chunk_payloads(p, 0).len() <= 1 {
        assert(chunk_payloads(p, 0).len() == 1);
        assert(chunk_payloads(p, 0).flatten() == chunk_payloads(p, 0)[0] + chunk_payloads(p, 0).drop_first().flatten());
        assert(chunk_payloads(p, 0).drop_first().len() == 0);
        assert(p.subrange(0, p.len() as int).len() == p.len());
    }
}

/// The whole output for a base64 payload `p`: one frame when it fits,
/// otherwise chunked frames; a newline follows in both cases.
pub open spec fn kitty_output(p: Seq<u8>) -> Seq<u8> {
    if p.len() <= MAX_CHUNK {
        utf8("\x1b_Ga=T,f=100,q=2;"@) + p + utf8("\x1b\\"@) + utf8("\n"@)
    } else {
        chunk_frames(p, 0) + utf8("\n"@)
    }
}

fn write_frame(out: &mut Vec<u8>, first: bool, last: bool, chunk: &[u8])
    ensures
        final(out)@ == old(out)@ + frame_header(first, last) + chunk@ + utf8("\x1b\\"@),
{
    if first {
        if last {
            write_str(out, "\x1b_Ga=T,f=100,q=2,m=0;");
        } else {
            write_str(out, "\x1b_Ga=T,f=100,q=2,m=1;");
        }
    } else if last {
        write_str(out, "\x1b_Gm=0;");
    } else {
        write_str(out, "\x1b_Gm=1;");
    }
    write_bytes(out, chunk);
    write_str(out, "\x1b\\");
    assert(out@ =~= old(out)@ + frame_header(first, last) + chunk@ + utf8("\x1b\\"@));
}

/// The bytes emitted for a PNG: the kitty frames of its base64 text.
pub open spec fn kitty_png(png: Seq<u8>) -> Seq<u8> {
    kitty_output(utf8(base64_standard(png)))
}

/// Emits a PNG image using the kitty graphics protocol, appending the frames
/// to `out`. Writing into a byte buffer cannot fail. Every frame payload is
/// whole base64 groups (a multiple of 4 bytes long).
pub fn write_kitty_png(out: &mut Vec<u8>, png: &[u8]) -> (r: Result<(), EmitError>)
    requires
        base64_len(png@.len()) <= usize::MAX,
    ensures
        r is Ok,
        final(out)@ == old(out)@ + kitty_png(png@),
        utf8(base64_standard(png@)).len() == base64_len(png@.len()),
        forall|i: int|
            0 <= i < chunk_payloads(utf8(base64_standard(png@)), 0).len() ==> (#[trigger] chunk_payloads(
                utf8(base64_standard(png@)),
                0,
            )[i]).len() % 4 == 0,
{
    let b64 = encode_standard(png);
    let bytes = b64.as_str().as_bytes();
    let ghost p = bytes@;
    assert(p == utf8(base64_standard(png@)));
    proof {
        assert(is_ascii_chars(b64@));
        vstd::utf8::is_ascii_chars_encode_utf8(b64@);
        let k: int = ((png@.len() + 2) / 3) as int;
        assert((4 * k) % 4 == 0) by (nonlinear_arith);
        chunks_keep_base64_alignment(p);
    }
    let n = bytes.len();
    if n <= MAX_CHUNK {
        write_str(out, "\x1b_Ga=T,f=100,q=2;");
        write_bytes(out, bytes);
        write_str(out, "\x1b\\");
        write_str(out, "\n");
        assert(out@ =~= old(out)@ + kitty_output(p));
        return Ok(());
    }
    let ghost start = out@;
    let mut offset: usize = 0;
    while offset < n
        invariant
            n == p.len(),
            bytes@ == p,
            offset <= n,
            start + chunk_frames(p, 0) == out@ + chunk_frames(p, offset as int),
        decreases n - offset,
    {
        let end = if n - offset > MAX_CHUNK {
            offset + MAX_CHUNK
        } else {
            n
        };
        let ghost before = out@;
        write_frame(out, offset == 0, end == n, &bytes[offset..end]);
        assert(bytes@.subrange(offset as int, end as int) == p.subrange(offset as int, end as int));
        assert(chunk_frames(p, offset as int) == frame_header(offset == 0, end == n) + p.subrange(
            offset as int,
            end as int,
        ) + utf8("\x1b\\"@) + chunk_frames(p, end as int));
        assert(start + chunk_frames(p, 0) =~= out@ + chunk_frames(p, end as int));
        offset = end;
    }
    assert(chunk_frames(p, n as int) == Seq::<u8>::empty());
    write_str(out, "\n");
    assert(out@ =~= old(out)@ + kitty_output(p));
    Ok(())
}

/// `b` with every ESC byte doubled.
pub open spec fn doubled_esc_bytes(b: Seq<u8>) -> Seq<u8>
    decreases b.len(),
{
    if b.len() == 0 {
        seq![]
    } else {
        doubled_esc_bytes(b.drop_last()) + if b.last() == 0x1bu8 {
            seq![0x1bu8, 0x1bu8]
        } else {
            seq![b.last()]
        }
    }
}

/// A frame sent through tmux: `ESC P tmux ;`, the frame with every ESC
/// doubled, `ESC \`.
pub open spec fn tmux_frame(f: Seq<u8>) -> Seq<u8> {
    utf8("\x1bPtmux;"@) + doubled_esc_bytes(f) + utf8("\x1b\\"@)
}

/// The chunked frames carrying `p[off..]`, each wrapped for tmux.
pub open spec fn chunk_frames_tmux(p: Seq<u8>, off: int) -> Seq<u8>
    decreases p.len() - off,
{
    if off < 0 || off >= p.len() {
        seq![]
    } else {
        let end = chunk_end(p, off);
        tmux_frame(frame_header(off == 0, end == p.len()) + p.subrange(off, end) + utf8("\x1b\\"@))
            + chunk_frames_tmux(p, end)
    }
}

/// The whole output for a base64 payload `p` inside tmux: the frames of
/// [`kitty_output`], each wrapped for tmux passthrough, then a newline.
pub open spec fn kitty_output_tmux(p: Seq<u8>) -> Seq<u8> {
    if p.len() <= MAX_CHUNK {
        tmux_frame(utf8("\x1b_Ga=T,f=100,q=2;"@) + p + utf8("\x1b\\"@)) + utf8("\n"@)
    } else {
        chunk_frames_tmux(p, 0) + utf8("\n"@)
    }
}

/// The bytes emitted for a PNG inside tmux.
pub open spec fn kitty_png_tmux(png: Seq<u8>) -> Seq<u8> {
    kitty_output_tmux(utf8(base64_standard(png)))
}

fn push_tmux_frame(out: &mut Vec<u8>, frame: &[u8])
    ensures
        final(out)@ == old(out)@ + tmux_frame(frame@),
{
    let ghost start = out@;
    write_str(out, "\x1bPtmux;");
    let ghost opened = out@;
    let mut i: usize = 0;
    while i < frame.len()
        invariant
            i <= frame@.len(),
            out@ == opened + doubled_esc_bytes(frame@.take(i as int)),
        decreases frame@.len() - i,
    {
        let b = frame[i];
        if b == 0x1bu8 {
            out.push(0x1bu8);
        }
        out.push(b);
        assert(frame@.take(i + 1).drop_last() =~= frame@.take(i as int));
        assert(frame@.take(i + 1).last() == b);
        i += 1;
    }
    assert(frame@.take(i as int) =~= frame@);
    write_str(out, "\x1b\\");
    assert(out@ =~= start + tmux_frame(frame@));
}

/// Emits a PNG image using the kitty graphics protocol inside tmux: the
/// frames `write_kitty_png` writes, each DCS-wrapped for tmux passthrough,
/// then a newline. Writing into a byte buffer cannot fail.
pub fn write_kitty_png_tmux(out: &mut Vec<u8>, png: &[u8]) -> (r: Result<(), EmitError>)
    requires
        base64_len(png@.len()) <= usize::MAX,
    ensures
        r is Ok,
        final(out)@ == old(out)@ + kitty_png_tmux(png@),
{
    let b64 = encode_standard(png);
    let bytes = b64.as_str().as_bytes();
    let ghost p = bytes@;
    assert(p == utf8(base64_standard(png@)));
    let n = bytes.len();
    if n <= MAX_CHUNK {
        let mut frame: Vec<u8> = Vec::new();
        write_str(&mut frame, "\x1b_Ga=T,f=100,q=2;");
        write_bytes(&mut frame, bytes);
        write_str(&mut frame, "\x1b\\");
        push_tmux_frame(out, frame.as_slice());
        write_str(out, "\n");
        assert(out@ =~= old(out)@ + kitty_output_tmux(p));
        return Ok(());
    }
    let ghost start = out@;
    let mut offset: usize = 0;
    while offset < n
        invariant
            n == p.len(),
            bytes@ == p,
            offset <= n,
            start + chunk_frames_tmux(p, 0) == out@ + chunk_frames_tmux(p, offset as int),
        decreases n - offset,
    {
        let end = if n - offset > MAX_CHUNK {
            offset + MAX_CHUNK
        } else {
            n
        };
        let mut frame: Vec<u8> = Vec::new();
        write_frame(&mut frame, offset == 0, end == n, &bytes[offset..end]);
        assert(bytes@.subrange(offset as int, end as int) == p.subrange(offset as int, end as int));
        assert(frame@ =~= frame_header(offset == 0, end == n) + p.subrange(offset as int, end as int) + utf8(
            "\x1b\\"@,
        ));
        push_tmux_frame(out, frame.as_slice());
        assert(chunk_frames_tmux(p, offset as int) == tmux_frame(frame@) + chunk_frames_tmux(p, end as int));
        assert(start + chunk_frames_tmux(p, 0) =~= out@ + chunk_frames_tmux(p, end as int));
        offset = end;
    }
    assert(chunk_frames_tmux(p, n as int) == Seq::<u8>::empty());
    write_str(out, "\n");
    assert(out@ =~= old(out)@ + kitty_output_tmux(p));
    Ok(())
}

} // verus!
