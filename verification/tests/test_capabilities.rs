//! Capability inference.

use rck_core::capabilities::{
    capabilities_from, detect_terminal_name, query_reply_complete, query_reply_confirms,
    wants_graphics_query, TerminalEnv,
};
use rck_core::Capabilities;

fn env(term: &str, term_program: &str, colorterm: &str) -> TerminalEnv {
    TerminalEnv {
        term: term.to_string(),
        term_program: term_program.to_string(),
        colorterm: colorterm.to_string(),
        wezterm: false,
        kitty: false,
        konsole: false,
        tmux: false,
    }
}

#[test]
fn plain_is_safe_default() {
    let c = Capabilities::plain();
    assert!(!c.graphics);
    assert!(!c.sixel);
    assert_eq!(c.unicode_width, 1);
}

#[test]
fn test_plain_capabilities() {
    let caps = Capabilities::plain();
    assert!(!caps.graphics);
    assert!(!caps.sixel);
    assert!(!caps.truecolor);
    assert!(!caps.hyperlinks);
    assert!(!caps.clipboard);
    assert!(!caps.task_markers);
    assert!(!caps.kitty_keyboard);
    assert!(!caps.in_tmux);
    assert_eq!(caps.unicode_width, 1);
    assert_eq!(caps.terminal, "unknown");
}

#[test]
fn known_terminals_from_env() {
    let c = capabilities_from(&env("", "ghostty", ""), true, false);
    assert_eq!(c.terminal, "ghostty");
    assert!(c.graphics);
    let c = capabilities_from(&env("", "WezTerm", ""), true, false);
    assert_eq!(c.terminal, "wezterm");
    assert!(c.graphics);
    assert!(c.sixel);
    let c = capabilities_from(&env("xterm-kitty", "", ""), true, false);
    assert_eq!(c.terminal, "kitty");
    assert!(c.graphics);
    assert!(c.truecolor);
    assert_eq!(c.unicode_width, 2);
}

#[test]
fn graphics_forced_off_without_tty() {
    let c = capabilities_from(&env("xterm-kitty", "", ""), false, true);
    assert!(!c.graphics);
    assert!(!c.is_tty);
}

#[test]
fn query_decides_graphics_only_when_wanted() {
    let e = env("xterm-256color", "", "truecolor");
    assert!(wants_graphics_query(&e, true));
    assert!(!wants_graphics_query(&e, false));
    assert!(capabilities_from(&e, true, true).graphics);
    assert!(!capabilities_from(&e, true, false).graphics);
    assert!(capabilities_from(&e, true, false).truecolor);
    assert!(!wants_graphics_query(&env("", "ghostty", ""), true));
}

#[test]
fn terminal_name_falls_back_to_term_then_unknown() {
    assert_eq!(detect_terminal_name(&env("xterm", "", "")), "xterm");
    assert_eq!(detect_terminal_name(&env("", "", "")), "unknown");
    assert_eq!(detect_terminal_name(&env("", "iTerm.app", "")), "iterm2");
    let mut k = env("", "", "");
    k.konsole = true;
    assert_eq!(detect_terminal_name(&k), "konsole");
    let c = capabilities_from(&env("dumb", "", ""), true, false);
    assert_eq!(c.unicode_width, 1);
    assert!(!c.truecolor);
}

#[test]
fn tmux_flag_carries_over() {
    let mut e = env("screen", "", "");
    e.tmux = true;
    assert!(capabilities_from(&e, true, false).in_tmux);
}

#[test]
fn query_reply_parsing() {
    assert!(query_reply_confirms(b"\x1b_Gi=31;OK\x1b\\\x1b[?62;c"));
    assert!(query_reply_confirms(b"junk_Gi=31;ok"));
    assert!(!query_reply_confirms(b"\x1b[?62;c"));
    assert!(query_reply_complete(b"\x1b[?62;c"));
    assert!(!query_reply_complete(b"\x1b[?62;"));
    assert!(!query_reply_complete(b"c[x"));
}
