//! Clipboard image recognition and decoding.

use rck_core::klipdot::base64_codec::{decode, encode};
use rck_core::klipdot::clipboard::ClipboardMonitor;
use rck_core::klipdot::clipboard::PollAction;
use rck_core::klipdot::config::Config;
use rck_core::klipdot::error::Error;
use rck_core::klipdot::hex_codec;

fn config() -> Config {
    Config::defaults_in("/tmp/klipdot-test", 0)
}

#[test]
fn test_clipboard_monitor_creation() {
    let monitor = ClipboardMonitor::new(config());
    assert!(!monitor.running);
    assert!(monitor.last_content.is_none());
}

#[test]
fn test_image_signature_detection() {
    let monitor = ClipboardMonitor::new(config());

    // PNG signature
    let png_data = vec![0x89, 0x50, 0x4E, 0x47, 0x0D, 0x0A, 0x1A, 0x0A];
    assert!(monitor.has_image_signature(&png_data));

    // JPEG signature
    let jpeg_data = vec![0xFF, 0xD8, 0xFF, 0xE0, 0x00, 0x10, 0x4A, 0x46];
    assert!(monitor.has_image_signature(&jpeg_data));

    // Not an image
    let text_data = b"Hello, world!";
    assert!(!monitor.has_image_signature(text_data));
}

#[test]
fn test_data_url_detection() {
    let monitor = ClipboardMonitor::new(config());

    let data_url = "data:image/png;base64,iVBORw0KGgoAAAANSUhEUgAAAAEAAAABCAYAAAAfFcSJAAAADUlEQVR42mNkYPhfDwAChAI9jU77UwAAAABJRU5ErkJggg==";
    assert!(monitor.is_image_data(data_url));

    let text = "Hello, world!";
    assert!(!monitor.is_image_data(text));
}

#[test]
fn signatures_of_every_format() {
    let m = ClipboardMonitor::new(config());
    assert!(m.has_image_signature(b"GIF87a...."));
    assert!(m.has_image_signature(b"GIF89a...."));
    assert!(m.has_image_signature(b"BM\x00\x00"));
    assert!(m.has_image_signature(b"RIFF\x00\x00\x00\x00WEBPVP8 "));
    assert!(!m.has_image_signature(b"RIFF\x00\x00\x00\x00WAVEfmt "));
    assert!(m.has_image_signature(&[0x49, 0x49, 0x2A, 0x00]));
    assert!(m.has_image_signature(&[0x4D, 0x4D, 0x00, 0x2A]));
    assert!(m.has_image_signature(&[0x00, 0x00, 0x01, 0x00]));
    // Under four bytes never counts, even with a BMP prefix.
    assert!(!m.has_image_signature(b"BM"));
    assert!(!m.has_image_signature(&[0xFF, 0xD8, 0xFF]));
}

#[test]
fn base64_png_text_is_image_data() {
    let m = ClipboardMonitor::new(config());
    let mut png = vec![0x89, 0x50, 0x4E, 0x47, 0x0D, 0x0A, 0x1A, 0x0A];
    png.extend(std::iter::repeat(7u8).take(100));
    let text = encode(&png);
    assert!(text.len() > 100);
    assert!(m.is_image_data(&text));
    // The same length of base64 that decodes to text is not.
    let plain = encode(&[b'a'; 108]);
    assert!(!m.is_image_data(&plain));
}

#[test]
fn decode_data_url_payload() {
    let m = ClipboardMonitor::new(config());
    let data = m.decode_clipboard_image("data:image/png;base64,aGVsbG8=").unwrap();
    assert_eq!(data, b"hello".to_vec());
    let plain = m.decode_clipboard_image("aGVsbG8=").unwrap();
    assert_eq!(plain, b"hello".to_vec());
}

#[test]
fn decode_errors_are_format_errors() {
    let m = ClipboardMonitor::new(config());
    match m.decode_clipboard_image("data:image/png;base64,@@@") {
        Err(Error::Format(msg)) => assert!(msg.starts_with("Invalid base64 data: ")),
        other => panic!("unexpected {:?}", other),
    }
    match m.decode_clipboard_image("not base64!") {
        Err(Error::Format(msg)) => assert!(msg.starts_with("Failed to decode image data: ")),
        other => panic!("unexpected {:?}", other),
    }
}

#[test]
fn base64_round_trip() {
    let bytes = vec![0u8, 1, 2, 250, 251, 252, 253];
    let text = encode(&bytes);
    assert_eq!(text, "AAEC+vv8/Q==");
    assert_eq!(decode(&text).unwrap(), bytes);
    assert!(decode("AAEC+vv8/Q").is_err());
}

#[test]
fn hex_decoding() {
    assert_eq!(hex_codec::decode("48656c6C6f").unwrap(), b"Hello".to_vec());
    assert!(hex_codec::decode("123").is_err());
    assert!(hex_codec::decode("zz").is_err());
}

#[test]
fn change_tracking() {
    let mut m = ClipboardMonitor::new(config());
    assert!(m.is_new_content("a"));
    m.remember("a".to_string());
    assert!(!m.is_new_content("a"));
    assert!(m.is_new_content("b"));
    m.start();
    assert!(m.running);
    m.stop();
    assert!(!m.running);
    assert_eq!(m.poll_interval(), 250);
}

#[test]
fn tool_output_to_clipboard_text() {
    let m = ClipboardMonitor::new(config());
    assert_eq!(m.clipboard_text_from_output("xclip", b"hello\n"), Some("hello\n".to_string()));
    assert_eq!(m.clipboard_text_from_output("xclip", b""), None);
    let png = [0x89u8, 0x50, 0x4E, 0x47];
    assert_eq!(m.clipboard_text_from_output("wl-paste", &png), Some(encode(&png)));
    assert_eq!(m.clipboard_text_from_output("wl-paste", b"data:\x01"), Some("data:\x01".to_string()));
}

#[test]
fn osascript_png() {
    let m = ClipboardMonitor::new(config());
    let out = "«data PNGf89504E470D0A1A0A0000»\n".as_bytes();
    assert_eq!(
        m.png_from_osascript(out),
        Some(vec![0x89, 0x50, 0x4E, 0x47, 0x0D, 0x0A, 0x1A, 0x0A, 0x00, 0x00])
    );
    assert_eq!(m.png_from_osascript("«data PNGf 4142 4344»".as_bytes()), None);
    assert_eq!(m.png_from_osascript(b"not hex"), None);
}

#[test]
fn decode_refuses_text_outside_the_alphabet() {
    assert!(decode("@@@@").is_err());
    assert!(decode("QUJD#A==").is_err());
    assert_eq!(decode(&encode(b"round trip")).unwrap(), b"round trip".to_vec());
}

#[test]
fn poll_actions_and_error_pauses() {
    let mut m = ClipboardMonitor::new(config());
    assert_eq!(m.poll_action(None), PollAction::Nothing);
    assert_eq!(m.poll_action(Some("hello")), PollAction::Remember);
    assert_eq!(m.poll_action(Some("data:image/png;base64,AAAA")), PollAction::ProcessImage);
    m.remember("hello".to_string());
    assert_eq!(m.poll_action(Some("hello")), PollAction::Nothing);
    let interval = m.poll_interval();
    assert_eq!(m.error_pause(&Error::Clipboard("busy".to_string())), Some(2 * interval));
    assert_eq!(m.error_pause(&Error::Config("bad".to_string())), None);
}

#[test]
fn clipboard_tool_command_lines() {
    assert_eq!(ClipboardMonitor::paste_command("wl-paste").unwrap(), vec!["wl-paste", "--type", "image/png"]);
    assert_eq!(ClipboardMonitor::paste_command("xclip").unwrap(), vec!["xclip", "-selection", "clipboard", "-o"]);
    assert_eq!(ClipboardMonitor::paste_command("xsel").unwrap(), vec!["xsel", "--clipboard", "--output"]);
    match ClipboardMonitor::paste_command("pbpaste") {
        Err(Error::Clipboard(m)) => assert_eq!(m, "Unsupported clipboard tool: pbpaste"),
        other => panic!("unexpected {:?}", other),
    }
    assert_eq!(ClipboardMonitor::copy_command("wl-copy").unwrap(), vec!["wl-copy", "--type", "text/plain"]);
    assert_eq!(ClipboardMonitor::copy_command("xclip").unwrap(), vec!["xclip", "-selection", "clipboard"]);
    assert_eq!(ClipboardMonitor::copy_command("xsel").unwrap(), vec!["xsel", "--clipboard", "--input"]);
    assert!(ClipboardMonitor::copy_command("wl-paste").is_err());
    let m = ClipboardMonitor::new(config());
    assert_eq!(m.plain_text_from_output(b""), None);
    assert_eq!(m.plain_text_from_output(b"hello\n").as_deref(), Some("hello\n"));
}
