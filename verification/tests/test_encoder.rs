//! Kitty graphics protocol encoder.

use base64::Engine;
use rck_core::encoder::{write_kitty_png, MAX_CHUNK};

#[test]
fn single_chunk_envelope_matches_spec() {
    let png = b"\x89PNG\r\n\x1a\nhello";
    let mut buf = Vec::new();
    write_kitty_png(&mut buf, png).unwrap();

    let expected_b64 = base64::engine::general_purpose::STANDARD.encode(png);
    let mut expected = Vec::new();
    expected.extend_from_slice(b"\x1b_Ga=T,f=100,q=2;");
    expected.extend_from_slice(expected_b64.as_bytes());
    expected.extend_from_slice(b"\x1b\\");
    expected.extend_from_slice(b"\n");
    assert_eq!(buf, expected);
}

#[test]
fn multi_chunk_has_correct_m_keys() {
    let png: Vec<u8> = (0..5000u32).map(|i| (i & 0xff) as u8).collect();
    let mut buf = Vec::new();
    write_kitty_png(&mut buf, &png).unwrap();
    let s = String::from_utf8_lossy(&buf);
    assert!(s.contains("\x1b_Ga=T,f=100,q=2,m=1;"), "missing first-chunk header");
    assert!(s.contains("\x1b_Gm=0;"), "missing final-chunk header");
    assert!(buf.ends_with(b"\x1b\\\n"));
}

#[test]
fn chunks_respect_max_size() {
    let png: Vec<u8> = (0..20_000u32).map(|i| (i & 0xff) as u8).collect();
    let mut buf = Vec::new();
    write_kitty_png(&mut buf, &png).unwrap();
    for frame in buf.split(|&b| b == 0x1b).filter(|f| !f.is_empty()) {
        if let Some(pos) = frame.iter().position(|&b| b == b';') {
            let payload_end = frame.iter().rposition(|&b| b == b'\\').unwrap_or(frame.len());
            if payload_end > pos {
                let payload_len = payload_end - pos - 1;
                assert!(payload_len <= MAX_CHUNK, "chunk too big: {payload_len}");
            }
        }
    }
}

#[test]
fn test_base64_alignment() {
    let png_small: Vec<u8> = (0..3072).map(|i| (i & 0xff) as u8).collect();
    let png_large: Vec<u8> = (0..3100).map(|i| (i & 0xff) as u8).collect();
    let mut buf_small = Vec::new();
    write_kitty_png(&mut buf_small, &png_small).unwrap();
    let mut buf_large = Vec::new();
    write_kitty_png(&mut buf_large, &png_large).unwrap();
    assert!(!buf_small.is_empty());
    assert!(!buf_large.is_empty());
}

#[test]
fn test_encoder_large_image() {
    let png: Vec<u8> = (0..20_000u32).map(|i| (i & 0xff) as u8).collect();
    let mut buf = Vec::new();
    write_kitty_png(&mut buf, &png).unwrap();
    let output = String::from_utf8_lossy(&buf);
    assert!(output.contains("\x1b_Ga=T,f=100,q=2,m=1;"), "missing first chunk header");
    assert!(output.contains("\x1b_Gm=0;"), "missing final chunk header");
    assert!(buf.ends_with(b"\x1b\\\n"), "missing terminator and newline");
    let frame_count = output.matches("\x1b_G").count();
    assert!(frame_count > 1, "should have multiple frames for large image");
}

#[test]
fn test_single_frame_format() {
    let png = b"\x89PNG\r\n\x1a\ntest";
    let mut buf = Vec::new();
    write_kitty_png(&mut buf, png).unwrap();
    let output = String::from_utf8_lossy(&buf);
    assert!(output.starts_with("\x1b_Ga=T,f=100,q=2;"), "missing control keys");
    assert!(output.ends_with("\x1b\\\n"), "missing terminator and newline");
    let frame_count = output.matches("\x1b_G").count();
    assert_eq!(frame_count, 1, "single frame should have exactly one APC sequence");
}

#[test]
fn test_empty_image() {
    let png: Vec<u8> = Vec::new();
    let mut buf = Vec::new();
    let result = write_kitty_png(&mut buf, &png);
    assert!(result.is_ok(), "empty image should not error");
    assert!(!buf.is_empty(), "empty image should produce output");
}

#[test]
fn test_chunk_size_limit() {
    let png: Vec<u8> = (0..100_000u32).map(|i| (i & 0xff) as u8).collect();
    let mut buf = Vec::new();
    write_kitty_png(&mut buf, &png).unwrap();
    let frames: Vec<&[u8]> = buf
        .split(|&b| b == 0x1b)
        .filter(|f| !f.is_empty() && f.starts_with(b"_G"))
        .collect();
    for frame in frames {
        if let Some(semicolon_pos) = frame.iter().position(|&b| b == b';') {
            if let Some(backslash_pos) = frame.iter().rposition(|&b| b == b'\\') {
                let payload_len = backslash_pos - semicolon_pos - 1;
                assert!(
                    payload_len <= MAX_CHUNK,
                    "chunk payload exceeds MAX_CHUNK: {} > {}",
                    payload_len,
                    MAX_CHUNK
                );
            }
        }
    }
}

#[test]
fn chunks_reassemble_to_the_base64_text() {
    let png: Vec<u8> = (0..9000u32).map(|i| (i * 7 & 0xff) as u8).collect();
    let mut buf = Vec::new();
    write_kitty_png(&mut buf, &png).unwrap();
    let expected = base64::engine::general_purpose::STANDARD.encode(&png);
    let mut payload = Vec::new();
    let mut frames = 0;
    for frame in buf.split(|&b| b == 0x1b).filter(|f| f.starts_with(b"_G")) {
        let pos = frame.iter().position(|&b| b == b';').unwrap();
        payload.extend_from_slice(&frame[pos + 1..]);
        frames += 1;
    }
    assert_eq!(frames, 3);
    assert_eq!(payload, expected.as_bytes());
    let s = String::from_utf8(buf).unwrap();
    assert!(s.starts_with("\x1b_Ga=T,f=100,q=2,m=1;"));
    assert_eq!(s.matches("\x1b_Gm=1;").count(), 1);
    assert_eq!(s.matches("\x1b_Gm=0;").count(), 1);
}

#[test]
fn exactly_one_full_chunk_uses_single_frame() {
    let png: Vec<u8> = vec![0u8; 3072];
    let mut buf = Vec::new();
    write_kitty_png(&mut buf, &png).unwrap();
    let s = String::from_utf8(buf).unwrap();
    assert!(s.starts_with("\x1b_Ga=T,f=100,q=2;"));
    assert_eq!(s.len(), "\x1b_Ga=T,f=100,q=2;".len() + 4096 + 3);
}

#[test]
fn frame_payloads_decode_to_the_png() {
    let png: Vec<u8> = (0..10_000u32).map(|i| (i * 7 % 256) as u8).collect();
    let mut out = Vec::new();
    write_kitty_png(&mut out, &png).unwrap();
    let text = String::from_utf8(out).unwrap();
    assert!(text.ends_with("\x1b\\\n"));
    let mut joined = String::new();
    let mut payloads = Vec::new();
    for frame in text.trim_end_matches('\n').split("\x1b\\").filter(|f| !f.is_empty()) {
        let payload = &frame[frame.find(';').unwrap() + 1..];
        payloads.push(payload.len());
        joined.push_str(payload);
    }
    for (i, len) in payloads.iter().enumerate() {
        assert!(*len <= MAX_CHUNK);
        assert_eq!(len % 4, 0);
        if i + 1 < payloads.len() {
            assert_eq!(*len, MAX_CHUNK);
        }
    }
    assert_eq!(rck_core::klipdot::base64_codec::decode(&joined).unwrap(), png);
}
