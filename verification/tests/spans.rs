//! Mixed text spans.

use rck_core::{render_spans, spans_width, Capabilities, Span};

fn caps(hyperlinks: bool) -> Capabilities {
    Capabilities {
        graphics: false,
        sixel: false,
        truecolor: false,
        unicode_width: 2,
        terminal: "test".into(),
        is_tty: true,
        hyperlinks,
        clipboard: false,
        task_markers: false,
        kitty_keyboard: false,
        in_tmux: false,
    }
}

#[test]
fn plain_spans_roundtrip() {
    let spans = vec![Span::text("hello "), Span::text("world")];
    assert_eq!(render_spans(&caps(true), &spans), "hello world");
}

#[test]
fn link_span_wraps_when_supported() {
    let spans = vec![Span::text("see "), Span::link("https://x", "docs")];
    let s = render_spans(&caps(true), &spans);
    assert!(s.contains("\x1b]8;;https://x\x1b\\"));
    assert!(s.contains("docs"));
}

#[test]
fn link_span_falls_back_to_plain() {
    let spans = vec![Span::link("https://x", "docs")];
    let s = render_spans(&caps(false), &spans);
    assert_eq!(s, "docs");
}

#[test]
fn spans_width_counts_visible_text_only() {
    let spans = vec![Span::text("see "), Span::link("https://example.com", "docs")];
    assert_eq!(spans_width(&spans), 8);
    assert_eq!(Span::link("u", "docs").visible(), "docs");
    let mut c = caps(true);
    c.in_tmux = true;
    assert!(Span::link("u", "d").render(&c).starts_with("\x1bPtmux;"));
}

#[test]
fn rendering_concatenates() {
    let c = caps(true);
    let a = vec![Span::text("see "), Span::link("https://a.b", "here")];
    let b = vec![Span::text(" and "), Span::link("https://c.d", "there")];
    let mut ab = a.clone();
    ab.extend(b.clone());
    assert_eq!(render_spans(&c, &[]), "");
    assert_eq!(render_spans(&c, &ab), render_spans(&c, &a) + &render_spans(&c, &b));
}
