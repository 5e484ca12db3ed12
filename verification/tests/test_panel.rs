//! Status panel rendering.

use rck_core::{emit_panel, emit_panel_spans, BorderStyle, Capabilities, Span};

fn caps(unicode_width: u16, hyperlinks: bool) -> Capabilities {
    Capabilities {
        graphics: false,
        sixel: false,
        truecolor: false,
        unicode_width,
        terminal: "test".into(),
        is_tty: true,
        hyperlinks,
        clipboard: false,
        task_markers: false,
        kitty_keyboard: false,
        in_tmux: false,
    }
}

#[test]
fn test_panel_border_styles() {
    let unicode_caps = caps(2, false);
    let ascii_caps = caps(1, false);

    let mut buf = Vec::new();
    emit_panel(&mut buf, &unicode_caps, "status", &["ok"], BorderStyle::Rounded).unwrap();
    let s = String::from_utf8(buf).unwrap();
    assert!(s.contains("╭"), "rounded should have ╭ corner");
    assert!(s.contains("╮"), "rounded should have ╮ corner");
    assert!(s.contains("╯"), "rounded should have ╯ corner");
    assert!(s.contains("╰"), "rounded should have ╰ corner");

    let mut buf = Vec::new();
    emit_panel(&mut buf, &unicode_caps, "status", &["ok"], BorderStyle::Square).unwrap();
    let s = String::from_utf8(buf).unwrap();
    assert!(s.contains("┌"), "square should have ┌ corner");
    assert!(s.contains("┐"), "square should have ┐ corner");
    assert!(s.contains("└"), "square should have └ corner");
    assert!(s.contains("┘"), "square should have ┘ corner");

    let mut buf = Vec::new();
    emit_panel(&mut buf, &ascii_caps, "status", &["ok"], BorderStyle::Ascii).unwrap();
    let s = String::from_utf8(buf).unwrap();
    assert!(s.contains("+"), "ascii should have + corners");
    assert!(s.contains("-"), "ascii should have - horizontals");
    assert!(!s.contains("╭"), "ascii should NOT have unicode corners");
}

#[test]
fn test_panel_renders_title_and_body() {
    let c = caps(2, false);
    let mut buf = Vec::new();
    emit_panel(&mut buf, &c, "build status", &["tests: 42 passed", "lint: clean"], BorderStyle::Rounded)
        .unwrap();
    let s = String::from_utf8(buf).unwrap();
    assert!(s.contains("build status"), "should contain title");
    assert!(s.contains("tests: 42 passed"), "should contain first body line");
    assert!(s.contains("lint: clean"), "should contain second body line");
}

#[test]
fn test_panel_spans_with_hyperlink() {
    let c = caps(2, true);
    let rows = vec![vec![Span::text("see "), Span::link("https://example.com", "docs")]];
    let mut buf = Vec::new();
    emit_panel_spans(&mut buf, &c, "links", &rows, BorderStyle::Rounded).unwrap();
    let s = String::from_utf8(buf).unwrap();
    assert!(s.contains("\x1b]8;;https://example.com"), "should emit OSC 8 hyperlink");
    assert!(s.contains("docs"), "should include link text");
}

#[test]
fn test_panel_ascii_fallback_on_low_unicode() {
    let c = caps(1, false);
    let mut buf = Vec::new();
    emit_panel(&mut buf, &c, "title", &["body"], BorderStyle::Rounded).unwrap();
    let s = String::from_utf8(buf).unwrap();
    assert!(s.contains("+"), "should fall back to + corners when unicode_width < 2");
    assert!(!s.contains("╭"), "should NOT use unicode rounded corners");
}

#[test]
fn unicode_uses_rounded_corners() {
    let c = caps(2, false);
    let mut buf = Vec::new();
    emit_panel(&mut buf, &c, "hello", &["line one", "line two"], BorderStyle::Rounded).unwrap();
    let s = String::from_utf8(buf).unwrap();
    assert!(s.contains("╭"));
    assert!(s.contains("╯"));
    assert!(s.contains("hello"));
    assert!(s.contains("line two"));
}

#[test]
fn ascii_fallback_uses_plus_dash() {
    let c = caps(1, false);
    let mut buf = Vec::new();
    emit_panel(&mut buf, &c, "t", &["row"], BorderStyle::Rounded).unwrap();
    let s = String::from_utf8(buf).unwrap();
    assert!(s.contains("+"));
    assert!(s.contains("-"));
    assert!(!s.contains("╭"));
}

#[test]
fn emoji_line_aligns_with_grapheme_width() {
    let c = caps(2, false);
    let mut buf = Vec::new();
    emit_panel(&mut buf, &c, "t", &["hi \u{1f4a9}"], BorderStyle::Square).unwrap();
    let s = String::from_utf8(buf).unwrap();
    let body_lines: Vec<&str> = s.lines().filter(|l| l.starts_with("│")).collect();
    assert!(!body_lines.is_empty());
    for l in body_lines {
        assert!(l.ends_with("│"), "unaligned body row: {:?}", l);
    }
}

#[test]
fn spans_with_link_render() {
    let mut c = caps(2, false);
    c.hyperlinks = true;
    let rows = vec![vec![Span::text("see "), Span::link("https://x", "docs")]];
    let mut buf = Vec::new();
    emit_panel_spans(&mut buf, &c, "t", &rows, BorderStyle::Square).unwrap();
    let s = String::from_utf8(buf).unwrap();
    assert!(s.contains("\x1b]8;;https://x"));
    assert!(s.contains("docs"));
}

#[test]
fn panel_exact_layout() {
    let c = caps(1, false);
    let mut buf = Vec::new();
    emit_panel(&mut buf, &c, "t", &["row"], BorderStyle::Ascii).unwrap();
    let s = String::from_utf8(buf).unwrap();
    assert_eq!(
        s,
        "+- t ----------+\n| row          |\n+--------------+\n"
    );
}

#[test]
fn panel_rows_share_one_width() {
    let c = caps(2, false);
    let mut buf = Vec::new();
    emit_panel(&mut buf, &c, "wide title here", &["a", "a much longer body row", "\u{1f4a9}"], BorderStyle::Square)
        .unwrap();
    let s = String::from_utf8(buf).unwrap();
    let widths: Vec<usize> = s
        .lines()
        .skip(1)
        .map(|l| rck_core::width::visible_width(l))
        .collect();
    assert!(widths.iter().all(|w| *w == widths[0]), "{:?}", widths);
}
