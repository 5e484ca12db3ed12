//! Progress-bar lines.

use rck_core::progress::spans_label;
use rck_core::{progress_line, Capabilities, ProgressStyle, Span};

fn caps(truecolor: bool, unicode_width: u16) -> Capabilities {
    Capabilities {
        graphics: false,
        sixel: false,
        truecolor,
        unicode_width,
        terminal: "test".into(),
        is_tty: true,
        hyperlinks: false,
        clipboard: false,
        task_markers: false,
        kitty_keyboard: false,
        in_tmux: false,
    }
}

#[test]
fn ascii_bar_has_brackets_and_percent() {
    let s = progress_line(&caps(false, 1), 20, 50, (0, 0, 0), ProgressStyle::Blocks, None);
    assert_eq!(s, format!("[{}{}]  50%\n", "=".repeat(20), "-".repeat(20)));
}

#[test]
fn ascii_style_ignores_unicode() {
    let s = progress_line(&caps(true, 2), 0, 0, (1, 2, 3), ProgressStyle::Ascii, Some("idle"));
    assert_eq!(s, format!("[{}]   0%  idle\n", "-".repeat(40)));
}

#[test]
fn truecolor_bar_emits_sgr() {
    let s = progress_line(&caps(true, 2), 40, 100, (72, 187, 120), ProgressStyle::Blocks, Some("done"));
    assert_eq!(
        s,
        format!("\x1b[38;2;72;187;120m{}\x1b[0m\x1b[2m\x1b[0m 100%  done\n", "█".repeat(40))
    );
}

#[test]
fn unicode_bar_without_color() {
    let s = progress_line(&caps(false, 2), 3, 8, (0, 0, 0), ProgressStyle::Blocks, None);
    assert_eq!(s, format!("{}{}   8%\n", "█".repeat(3), "░".repeat(37)));
}

#[test]
fn span_label_empty_is_none() {
    let c = caps(false, 2);
    assert_eq!(spans_label(&c, &[]), None);
    assert_eq!(spans_label(&c, &[Span::text("")]), None);
    assert_eq!(spans_label(&c, &[Span::text("a"), Span::link("u", "b")]), Some("ab".to_string()));
}

// The line a floating-point ratio gives: clamped to [0, 1], the filled cells
// and the percentage rounded, as the rendering front end computes them.
fn ratio_line(caps: &Capabilities, ratio: f32, style: ProgressStyle, label: Option<&str>) -> String {
    let ratio = ratio.clamp(0.0, 1.0);
    let filled = ((ratio * 40.0).round() as usize).min(40);
    let pct = (ratio * 100.0).round() as u32;
    progress_line(caps, filled, pct, (0, 0, 0), style, label)
}

#[test]
fn test_progress_clamping() {
    let caps = Capabilities::plain();
    let output = ratio_line(&caps, 2.5, ProgressStyle::Ascii, None);
    assert!(output.contains("100%"), "ratio >1.0 should clamp to 100%");
    let output = ratio_line(&caps, -0.5, ProgressStyle::Ascii, None);
    assert!(output.contains("0%"), "ratio <0.0 should clamp to 0%");
}

#[test]
fn test_progress_ascii_style() {
    let caps = Capabilities::plain();
    let output = ratio_line(&caps, 0.5, ProgressStyle::Ascii, Some("halfway"));
    assert!(output.contains("["), "ASCII style should have opening bracket");
    assert!(output.contains("]"), "ASCII style should have closing bracket");
    assert!(output.contains("="), "ASCII style should have equals signs");
    assert!(output.contains("50%"), "should show 50% for 0.5 ratio");
    assert!(output.contains("halfway"), "should include label");
    assert_eq!(output, format!("[{}{}]  50%  halfway\n", "=".repeat(20), "-".repeat(20)));
}

#[test]
fn test_progress_blocks_style() {
    let mut caps = Capabilities::plain();
    caps.unicode_width = 2;
    let output = ratio_line(&caps, 0.75, ProgressStyle::Blocks, Some("building"));
    assert!(output.contains("75%"), "should show 75% for 0.75 ratio");
    assert!(output.contains("building"), "should include label");
    assert!(!output.is_empty(), "should produce output");
}

#[test]
fn test_progress_no_label() {
    let caps = Capabilities::plain();
    let output = ratio_line(&caps, 0.33, ProgressStyle::Ascii, None);
    assert!(output.contains("33%"), "should show percentage");
    assert!(output.contains("["), "should have ASCII bar");
}

#[test]
fn test_progress_percentage_format() {
    let caps = Capabilities::plain();
    let output = ratio_line(&caps, 0.427, ProgressStyle::Ascii, None);
    assert!(output.contains("42%") || output.contains("43%"), "should display integer percentage, got: {}", output);
    assert!(!output.contains("42.7%"), "should not show decimal percentage");
}
