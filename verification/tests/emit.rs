//! OSC emit primitives: wrapping, hyperlinks, clipboard, task markers.

use rck_core::{emit_clipboard, emit_hyperlink, emit_task_markers, wrap_for_tmux_with, TaskPhase};

#[test]
fn wrap_is_noop_without_tmux() {
    let s = "\x1b]8;;https://x\x1b\\";
    assert_eq!(wrap_for_tmux_with(s, false), s);
}

#[test]
fn wrap_doubles_escapes_in_tmux() {
    let s = "\x1b]8;;x\x1b\\";
    let w = wrap_for_tmux_with(s, true);
    assert!(w.starts_with("\x1bPtmux;"));
    assert!(w.ends_with("\x1b\\"));
    let inner = &w["\x1bPtmux;".len()..w.len() - 2];
    let esc_count = inner.chars().filter(|c| *c == '\x1b').count();
    assert_eq!(esc_count, 4);
}

#[test]
fn wrap_nested_escapes_double_correctly() {
    let s = "\x1b_Gf=100;AAAA\x1b\\";
    let w = wrap_for_tmux_with(s, true);
    let inner = &w["\x1bPtmux;".len()..w.len() - 2];
    assert_eq!(inner.chars().filter(|c| *c == '\x1b').count(), 4);
}

#[test]
fn hyperlink_plain_when_unsupported() {
    let s = emit_hyperlink(false, false, "https://x", "click");
    assert_eq!(s, "click");
}

#[test]
fn hyperlink_emits_osc8() {
    let s = emit_hyperlink(true, false, "https://x", "click");
    assert!(s.contains("\x1b]8;;https://x\x1b\\"));
    assert!(s.contains("click"));
    assert!(s.ends_with("\x1b]8;;\x1b\\"));
}

#[test]
fn hyperlink_wraps_in_tmux() {
    let s = emit_hyperlink(true, true, "https://x", "click");
    assert!(s.starts_with("\x1bPtmux;"));
    assert!(s.contains("click"));
}

#[test]
fn hyperlink_empty_text() {
    let s = emit_hyperlink(true, false, "https://x", "");
    assert!(s.contains("https://x"));
}

#[test]
fn clipboard_b64_encodes() {
    let s = emit_clipboard(true, false, "hello");
    assert!(s.contains("aGVsbG8="));
    assert!(s.starts_with("\x1b]52;c;"));
}

#[test]
fn clipboard_empty_when_unsupported() {
    assert_eq!(emit_clipboard(false, false, "x"), "");
}

#[test]
fn clipboard_wraps_in_tmux() {
    let s = emit_clipboard(true, true, "hi");
    assert!(s.starts_with("\x1bPtmux;"));
    assert!(s.ends_with("\x1b\\"));
}

#[test]
fn task_marker_prompt_start() {
    let s = emit_task_markers(true, false, TaskPhase::PromptStart);
    assert_eq!(s, "\x1b]133;A\x1b\\");
}

#[test]
fn task_marker_command_end_carries_exit() {
    let s = emit_task_markers(true, false, TaskPhase::CommandEnd(2));
    assert_eq!(s, "\x1b]133;D;2\x1b\\");
}

#[test]
fn task_marker_empty_when_unsupported() {
    assert_eq!(emit_task_markers(false, false, TaskPhase::PromptStart), "");
}

#[test]
fn wrap_exact_bytes_in_tmux() {
    assert_eq!(wrap_for_tmux_with("a\x1bb", true), "\x1bPtmux;a\x1b\x1bb\x1b\\");
}

#[test]
fn hyperlink_exact_bytes_in_tmux() {
    assert_eq!(
        emit_hyperlink(true, true, "u", "t"),
        "\x1bPtmux;\x1b\x1b]8;;u\x1b\x1b\\\x1b\\t\x1bPtmux;\x1b\x1b]8;;\x1b\x1b\\\x1b\\"
    );
}

#[test]
fn clipboard_exact_bytes() {
    assert_eq!(emit_clipboard(true, false, "hi"), "\x1b]52;c;aGk=\x1b\\");
    assert_eq!(emit_clipboard(true, false, ""), "\x1b]52;c;\x1b\\");
}

#[test]
fn task_marker_negative_and_extreme_exit_codes() {
    assert_eq!(emit_task_markers(true, false, TaskPhase::CommandEnd(-1)), "\x1b]133;D;-1\x1b\\");
    assert_eq!(
        emit_task_markers(true, false, TaskPhase::CommandEnd(i32::MIN)),
        "\x1b]133;D;-2147483648\x1b\\"
    );
    assert_eq!(
        emit_task_markers(true, false, TaskPhase::CommandEnd(i32::MAX)),
        "\x1b]133;D;2147483647\x1b\\"
    );
    assert_eq!(
        emit_task_markers(true, true, TaskPhase::PromptEnd),
        "\x1bPtmux;\x1b\x1b]133;B\x1b\x1b\\\x1b\\"
    );
}

#[test]
fn tmux_wrap_is_undone() {
    let inner = "\x1b]8;;x\x1b\\";
    let w = wrap_for_tmux_with(inner, true);
    let body = w.strip_prefix("\x1bPtmux;").and_then(|x| x.strip_suffix("\x1b\\")).unwrap();
    assert_eq!(body.replace("\x1b\x1b", "\x1b"), inner);
    assert_ne!(wrap_for_tmux_with(&w, true), w);
}
