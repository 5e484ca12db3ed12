//! Interactive primitives: routing, key handling, bodies, line replies.

use rck_core::interactive::{
    answer_from_line, ask_body, ask_step, can_interact, choice_from_line, input_body,
    input_from_line, input_step, key_interrupts, pick_body, pick_start, pick_step,
};
use rck_core::{Capabilities, Key, Outcome, Step};

fn non_interactive_caps() -> Capabilities {
    Capabilities {
        graphics: false,
        sixel: false,
        truecolor: false,
        unicode_width: 1,
        terminal: "test".into(),
        is_tty: false,
        hyperlinks: false,
        clipboard: false,
        task_markers: false,
        kitty_keyboard: false,
        in_tmux: false,
    }
}

#[test]
fn can_interact_requires_tty_and_kbd() {
    let mut c = non_interactive_caps();
    assert!(!can_interact(&c));
    c.is_tty = true;
    assert!(!can_interact(&c));
    c.kitty_keyboard = true;
    assert!(can_interact(&c));
}

#[test]
fn ask_fallback_reads_y() {
    let caps = non_interactive_caps();
    assert!(!can_interact(&caps));
}

#[test]
fn input_fallback_rejects_empty() {
    let caps = non_interactive_caps();
    assert!(!can_interact(&caps));
}

#[test]
fn outcome_equality() {
    let a: Outcome<bool> = Outcome::Selected(true);
    let b: Outcome<bool> = Outcome::Selected(true);
    assert_eq!(a, b);
    let c: Outcome<bool> = Outcome::Cancelled;
    assert_ne!(a, c);
}

#[test]
fn ask_fallback_parses_n_like_string() {
    fn classify(s: &str) -> Outcome<bool> {
        let t = s.trim().to_ascii_lowercase();
        if t.is_empty() {
            Outcome::Cancelled
        } else if t.starts_with('y') {
            Outcome::Selected(true)
        } else {
            Outcome::Selected(false)
        }
    }
    assert_eq!(classify("y"), Outcome::Selected(true));
    assert_eq!(classify("N"), Outcome::Selected(false));
    assert_eq!(classify(""), Outcome::Cancelled);
    assert_eq!(classify("yes please"), Outcome::Selected(true));
}

#[test]
fn answer_from_line_matches_prompt_rules() {
    assert_eq!(answer_from_line("y\n"), Outcome::Selected(true));
    assert_eq!(answer_from_line("N\n"), Outcome::Selected(false));
    assert_eq!(answer_from_line("\n"), Outcome::Cancelled);
    assert_eq!(answer_from_line("  Yes please \r\n"), Outcome::Selected(true));
    assert_eq!(answer_from_line("\u{3000}y"), Outcome::Selected(true));
    assert_eq!(answer_from_line("maybe"), Outcome::Selected(false));
}

#[test]
fn pick_empty_choices_cancels() {
    assert_eq!(pick_start(&[]), Step::Finish(Outcome::Cancelled));
    assert_eq!(pick_start(&["a".to_string()]), Step::Continue(0));
}

#[test]
fn choice_from_line_by_index_or_name() {
    let choices = vec!["dev".to_string(), "staging".to_string(), "prod".to_string()];
    assert_eq!(choice_from_line("1\n", &choices), Outcome::Selected("staging".to_string()));
    assert_eq!(choice_from_line("+2", &choices), Outcome::Selected("prod".to_string()));
    assert_eq!(choice_from_line(" prod \n", &choices), Outcome::Selected("prod".to_string()));
    assert_eq!(choice_from_line("3", &choices), Outcome::Cancelled);
    assert_eq!(choice_from_line("", &choices), Outcome::Cancelled);
    assert_eq!(choice_from_line("qa", &choices), Outcome::Cancelled);
    assert_eq!(
        choice_from_line("99999999999999999999999", &choices),
        Outcome::Cancelled
    );
}

#[test]
fn input_from_line_strips_line_end_only() {
    assert_eq!(input_from_line(" T-12 \r\n"), Outcome::Selected(" T-12 ".to_string()));
    assert_eq!(input_from_line("\n"), Outcome::Cancelled);
    assert_eq!(input_from_line(""), Outcome::Cancelled);
}

#[test]
fn ask_keys() {
    assert_eq!(ask_step(true, Key::Down), Step::Continue(false));
    assert_eq!(ask_step(false, Key::Tab), Step::Continue(true));
    assert_eq!(ask_step(false, Key::Enter), Step::Finish(Outcome::Selected(false)));
    assert_eq!(ask_step(false, Key::Char { c: 'Y', ctrl: false }), Step::Finish(Outcome::Selected(true)));
    assert_eq!(ask_step(true, Key::Char { c: 'n', ctrl: false }), Step::Finish(Outcome::Selected(false)));
    assert_eq!(ask_step(true, Key::Esc), Step::Finish(Outcome::Cancelled));
    assert_eq!(ask_step(true, Key::Char { c: 'c', ctrl: true }), Step::Finish(Outcome::Cancelled));
    assert_eq!(ask_step(true, Key::Char { c: 'q', ctrl: false }), Step::Continue(true));
    assert!(key_interrupts(Key::Char { c: 'c', ctrl: true }));
    assert!(!key_interrupts(Key::Char { c: 'c', ctrl: false }));
}

#[test]
fn pick_keys_wrap_around() {
    let choices = vec!["a".to_string(), "b".to_string(), "c".to_string()];
    assert_eq!(pick_step(0, &choices, Key::Up), Step::Continue(2));
    assert_eq!(pick_step(2, &choices, Key::Down), Step::Continue(0));
    assert_eq!(pick_step(1, &choices, Key::Enter), Step::Finish(Outcome::Selected("b".to_string())));
    assert_eq!(pick_step(1, &choices, Key::Esc), Step::Finish(Outcome::Cancelled));
    assert_eq!(pick_step(1, &choices, Key::Left), Step::Continue(1));
}

#[test]
fn input_keys_edit_the_buffer() {
    assert_eq!(input_step("ab".to_string(), Key::Char { c: 'c', ctrl: false }), Step::Continue("abc".to_string()));
    assert_eq!(input_step("ab".to_string(), Key::Char { c: 'x', ctrl: true }), Step::Continue("ab".to_string()));
    assert_eq!(input_step("ab".to_string(), Key::Backspace), Step::Continue("a".to_string()));
    assert_eq!(input_step(String::new(), Key::Backspace), Step::Continue(String::new()));
    assert_eq!(input_step("ab".to_string(), Key::Enter), Step::Finish(Outcome::Selected("ab".to_string())));
    assert_eq!(input_step("ab".to_string(), Key::Char { c: 'c', ctrl: true }), Step::Finish(Outcome::Cancelled));
}

#[test]
fn panel_bodies() {
    assert_eq!(
        ask_body("Deploy?", true),
        vec!["Deploy?", "", "  [ Yes ]    No   ", "", "↑/↓ or y/n · Enter commit · Esc cancel"]
    );
    assert_eq!(ask_body("Deploy?", false)[2], "   Yes   [ No ]  ");
    let choices = vec!["dev".to_string(), "prod".to_string()];
    assert_eq!(
        pick_body("Pick env", &choices, 1),
        vec!["Pick env", "", "   dev", " › prod", "", "↑/↓ · Enter commit · Esc cancel"]
    );
    assert_eq!(
        input_body("Ticket", "T-1"),
        vec!["Ticket", "", "  ▌ T-1", "", "Enter commit · Esc cancel · Backspace"]
    );
}
