//! Visible width and escape stripping.

use rck_core::width::{strip_escapes, visible_width};
use rck_core::{emit_clipboard, emit_hyperlink, emit_task_markers, TaskPhase};

#[test]
fn ascii_is_one_cell_each() {
    assert_eq!(visible_width("hello"), 5);
}

#[test]
fn sgr_is_stripped() {
    assert_eq!(visible_width("\x1b[31mred\x1b[0m"), 3);
}

#[test]
fn osc8_link_is_stripped() {
    let s = "\x1b]8;;https://x\x1b\\click\x1b]8;;\x1b\\";
    assert_eq!(visible_width(s), 5);
}

#[test]
fn emoji_is_two_cells() {
    assert_eq!(visible_width("a\u{1f4a9}"), 3);
}

#[test]
fn zwj_family_one_cluster() {
    let zwj = "\u{1f468}\u{200d}\u{1f469}\u{200d}\u{1f466}";
    assert_eq!(visible_width(zwj), 2);
}

#[test]
fn flag_is_one_cluster() {
    assert_eq!(visible_width("\u{1f1fa}\u{1f1f8}"), 2);
}

#[test]
fn strip_escapes_cases() {
    assert_eq!(strip_escapes("plain"), "plain");
    assert_eq!(strip_escapes("a\x1b[1;31mb"), "ab");
    assert_eq!(strip_escapes("a\x1b]0;title\x07b"), "ab");
    assert_eq!(strip_escapes("a\x1bPdata\x1b\\b"), "ab");
    assert_eq!(strip_escapes("a\x1bNb"), "ab");
    assert_eq!(strip_escapes("a\x1b"), "a");
    assert_eq!(strip_escapes("a\x1b[12"), "a");
    assert_eq!(strip_escapes("a\x1b_unterminated"), "a");
}

#[test]
fn control_chars_take_a_cell() {
    assert_eq!(visible_width("\u{7}"), 1);
    assert_eq!(visible_width(""), 0);
}

#[test]
fn escape_free_prefix_is_kept() {
    let s = "plain \x07 text ";
    let t = "\x1b[31mred\x1b[0m";
    assert_eq!(strip_escapes(s), s);
    assert_eq!(strip_escapes(&(s.to_string() + t)), s.to_string() + &strip_escapes(t));
}

#[test]
fn osc_sequences_strip_away() {
    for in_tmux in [false, true] {
        assert_eq!(strip_escapes(&emit_hyperlink(true, in_tmux, "https://x.y/z", "click \x07 me")), "click \x07 me");
        assert_eq!(strip_escapes(&emit_clipboard(true, in_tmux, "copied text")), "");
        assert_eq!(strip_escapes(&emit_task_markers(true, in_tmux, TaskPhase::CommandEnd(-42))), "");
        assert_eq!(strip_escapes(&emit_task_markers(true, in_tmux, TaskPhase::PromptStart)), "");
    }
}

#[test]
fn printable_ascii_is_one_cell_per_character() {
    let s = "Hello, World! ~ 0123 {}";
    assert_eq!(visible_width(s), s.chars().count());
    assert_eq!(visible_width(""), 0);
}
