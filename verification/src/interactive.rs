//! Decisions of the interactive primitives: yes/no confirm, single-choice
//! pick and single-line input.
//!
//! Each primitive runs either as a key-driven loop (alt-screen + kitty
//! keyboard protocol on capable terminals) or as a plain line prompt. This
//! module holds what the loops decide for each key, the panel bodies they
//! draw, and how a typed line is read; the terminal I/O stands outside.

use vstd::prelude::*;

use vstd::arithmetic::div_mod::{lemma_mod_self_0, lemma_small_mod};

use crate::capabilities::Capabilities;
use crate::text::{chars_of, parse_usize, parsed_usize, string_from_chars, trim_chars, trimmed};

verus! {

/// Outcome of an interactive primitive.
#[derive(Debug, Clone, PartialEq, Eq)]
pub enum Outcome<T> {
    Selected(T),
    Cancelled,
}

/// A key press, as the key-driven loops see it.
#[derive(Debug, Clone, Copy, PartialEq, Eq, Structural)]
pub enum Key {
    Up,
    Down,
    Left,
    Right,
    Tab,
    Enter,
    Esc,
    Backspace,
    /// A character key, with whether Control was held.
    Char { c: char, ctrl: bool },
    /// Any other key.
    Other,
}

/// What a loop does after a key: go on in a new state, or finish.
#[derive(Debug, Clone, PartialEq, Eq)]
pub enum Step<S, T> {
    Continue(S),
    Finish(Outcome<T>),
}

/// Whether the alt-screen and kitty-keyboard path is used (otherwise a plain
/// line prompt): stdout is a TTY and the terminal speaks the kitty keyboard
/// protocol.
pub fn can_interact(caps: &Capabilities) -> (r: bool)
    ensures
        r == (caps.is_tty && caps.kitty_keyboard),
{
    caps.is_tty && caps.kitty_keyboard
}

/// Ctrl-C, which cancels every primitive.
pub open spec fn is_interrupt(key: Key) -> bool {
    key == Key::Char { c: 'c', ctrl: true }
}

/// Whether `key` is Ctrl-C.
pub fn key_interrupts(key: Key) -> (r: bool)
    ensures
        r == is_interrupt(key),
{
    match key {
        Key::Char { c, ctrl } => ctrl && c == 'c',
        _ => false,
    }
}

/// The confirm loop's answer to a key, with `yes` the highlighted choice:
/// arrows and Tab swap the highlight, `y`/`n` answer at once, Enter commits
/// the highlight, Esc and Ctrl-C cancel, other keys change nothing.
pub open spec fn ask_next(yes: bool, key: Key) -> Step<bool, bool> {
    if is_interrupt(key) {
        Step::Finish(Outcome::Cancelled)
    } else {
        match key {
            Key::Up | Key::Down | Key::Left | Key::Right | Key::Tab => Step::Continue(!yes),
            Key::Char { c, ctrl } => if c == 'y' || c == 'Y' {
                Step::Finish(Outcome::Selected(true))
            } else if c == 'n' || c == 'N' {
                Step::Finish(Outcome::Selected(false))
            } else {
                Step::Continue(yes)
            },
            Key::Enter => Step::Finish(Outcome::Selected(yes)),
            Key::Esc => Step::Finish(Outcome::Cancelled),
            _ => Step::Continue(yes),
        }
    }
}

/// One step of the yes/no confirm loop.
pub fn ask_step(yes: bool, key: Key) -> (r: Step<bool, bool>)
    ensures
        r == ask_next(yes, key),
{
    if key_interrupts(key) {
        return Step::Finish(Outcome::Cancelled);
    }
    match key {
        Key::Up | Key::Down | Key::Left | Key::Right | Key::Tab => Step::Continue(!yes),
        Key::Char { c, ctrl } => {
            if c == 'y' || c == 'Y' {
                Step::Finish(Outcome::Selected(true))
            } else if c == 'n' || c == 'N' {
                Step::Finish(Outcome::Selected(false))
            } else {
                Step::Continue(yes)
            }
        },
        Key::Enter => Step::Finish(Outcome::Selected(yes)),
        Key::Esc => Step::Finish(Outcome::Cancelled),
        _ => Step::Continue(yes),
    }
}

/// The picker's index after a key (arrows wrap around), or its outcome.
pub open spec fn pick_next(idx: usize, len: usize, key: Key) -> Step<usize, usize> {
    if is_interrupt(key) {
        Step::Finish(Outcome::Cancelled)
    } else {
        match key {
            Key::Up => Step::Continue(
                if idx == 0 {
                    (len - 1) as usize
                } else {
                    (idx - 1) as usize
                },
            ),
            Key::Down => Step::Continue(((idx + 1) % (len as int)) as usize),
            Key::Enter => Step::Finish(Outcome::Selected(idx)),
            Key::Esc => Step::Finish(Outcome::Cancelled),
            _ => Step::Continue(idx),
        }
    }
}

/// How the picker starts: cancelled at once without choices, otherwise on
/// the first choice.
pub fn pick_start(choices: &[String]) -> (r: Step<usize, String>)
    ensures
        choices@.len() == 0 ==> r == Step::<usize, String>::Finish(Outcome::Cancelled),
        choices@.len() > 0 ==> r == Step::<usize, String>::Continue(0),
{
    if choices.len() == 0 {
        Step::Finish(Outcome::Cancelled)
    } else {
        Step::Continue(0)
    }
}

/// One step of the single-choice picker over `choices`, highlighting
/// `choices[idx]`; Enter selects a copy of the highlighted choice.
pub fn pick_step(idx: usize, choices: &[String], key: Key) -> (r: Step<usize, String>)
    requires
        idx < choices@.len(),
    ensures
        match pick_next(idx, choices@.len() as usize, key) {
            Step::Continue(i) => r == Step::<usize, String>::Continue(i),
            Step::Finish(Outcome::Selected(i)) => r matches Step::Finish(Outcome::Selected(s)) && s@
                == choices@[i as int]@,
            Step::Finish(Outcome::Cancelled) => r == Step::<usize, String>::Finish(Outcome::Cancelled),
        },
{
    let len = choices.len();
    if key_interrupts(key) {
        return Step::Finish(Outcome::Cancelled);
    }
    match key {
        Key::Up => {
            if idx == 0 {
                Step::Continue(len - 1)
            } else {
                Step::Continue(idx - 1)
            }
        },
        Key::Down => Step::Continue((idx + 1) % len),
        Key::Enter => Step::Finish(Outcome::Selected(choices[idx].as_str().to_owned())),
        Key::Esc => Step::Finish(Outcome::Cancelled),
        _ => Step::Continue(idx),
    }
}

/// The input loop's buffer after a key, or its outcome: Enter commits the
/// buffer, Esc and Ctrl-C cancel, Backspace drops the last character, a
/// character typed without Control is appended, other keys change nothing.
pub open spec fn input_next(buf: Seq<char>, key: Key) -> Step<Seq<char>, Seq<char>> {
    if is_interrupt(key) {
        Step::Finish(Outcome::Cancelled)
    } else {
        match key {
            Key::Enter => Step::Finish(Outcome::Selected(buf)),
            Key::Esc => Step::Finish(Outcome::Cancelled),
            Key::Backspace => Step::Continue(
                if buf.len() > 0 {
                    buf.drop_last()
                } else {
                    buf
                },
            ),
            Key::Char { c, ctrl } => Step::Continue(
                if ctrl {
                    buf
                } else {
                    buf.push(c)
                },
            ),
            _ => Step::Continue(buf),
        }
    }
}

/// The character-sequence view of a step of the input loop.
pub open spec fn input_step_view(r: Step<String, String>) -> Step<Seq<char>, Seq<char>> {
    match r {
        Step::Continue(b) => Step::Continue(b@),
        Step::Finish(Outcome::Selected(b)) => Step::Finish(Outcome::Selected(b@)),
        Step::Finish(Outcome::Cancelled) => Step::Finish(Outcome::Cancelled),
    }
}

/// One step of the single-line input loop.
pub fn input_step(buf: String, key: Key) -> (r: Step<String, String>)
    ensures
        input_step_view(r) == input_next(buf@, key),
{
    if key_interrupts(key) {
        return Step::Finish(Outcome::Cancelled);
    }
    let mut buf = buf;
    match key {
        Key::Enter => Step::Finish(Outcome::Selected(buf)),
        Key::Esc => Step::Finish(Outcome::Cancelled),
        Key::Backspace => {
            let _ = buf.pop();
            Step::Continue(buf)
        },
        Key::Char { c, ctrl } => {
            if !ctrl {
                buf.push(c);
            }
            Step::Continue(buf)
        },
        _ => Step::Continue(buf),
    }
}

/// Ctrl-C cancels every primitive, whatever its state.
pub proof fn interrupt_always_cancels(yes: bool, idx: usize, len: usize, buf: Seq<char>, key: Key)
    requires
        is_interrupt(key),
    ensures
        ask_next(yes, key) == Step::<bool, bool>::Finish(Outcome::Cancelled),
        pick_next(idx, len, key) == Step::<usize, usize>::Finish(Outcome::Cancelled),
        input_next(buf, key) == Step::<Seq<char>, Seq<char>>::Finish(Outcome::Cancelled),
{
}

/// The picker's highlight never leaves the choices, and what it selects is
/// the highlighted choice.
pub proof fn pick_stays_in_range(idx: usize, len: usize, key: Key)
    requires
        idx < len,
    ensures
        pick_next(idx, len, key) matches Step::Continue(i) ==> i < len,
        pick_next(idx, len, key) matches Step::Finish(Outcome::Selected(i)) ==> i == idx,
{
}

/// Up undoes Down and Down undoes Up: the picker wraps around at both ends.
pub proof fn pick_up_down_round_trip(idx: usize, len: usize)
    requires
        idx < len,
    ensures
        pick_next(idx, len, Key::Down) matches Step::Continue(j) && pick_next(j, len, Key::Up)
            == Step::<usize, usize>::Continue(idx),
        pick_next(idx, len, Key::Up) matches Step::Continue(j) && pick_next(j, len, Key::Down)
            == Step::<usize, usize>::Continue(idx),
{
    if idx + 1 < len {
        lemma_small_mod((idx + 1) as nat, len as nat);
    } else {
        lemma_mod_self_0(len as int);
    }
    if idx > 0 {
        lemma_small_mod(idx as nat, len as nat);
    } else {
        lemma_mod_self_0(len as int);
    }
}

/// The letters answer the confirm at once, whatever is highlighted and
/// whether Ctrl is held: `y` or `Y` answers yes, `n` or `N` answers no.
pub proof fn letters_answer_the_confirm(yes: bool, ctrl: bool)
    ensures
        ask_next(yes, Key::Char { c: 'y', ctrl }) == Step::<bool, bool>::Finish(Outcome::Selected(true)),
        ask_next(yes, Key::Char { c: 'Y', ctrl }) == Step::<bool, bool>::Finish(Outcome::Selected(true)),
        ask_next(yes, Key::Char { c: 'n', ctrl }) == Step::<bool, bool>::Finish(Outcome::Selected(false)),
        ask_next(yes, Key::Char { c: 'N', ctrl }) == Step::<bool, bool>::Finish(Outcome::Selected(false)),
{
}

/// Enter commits the highlighted answer and Esc cancels the confirm, whatever
/// is highlighted.
pub proof fn enter_commits_esc_cancels(yes: bool)
    ensures
        ask_next(yes, Key::Enter) == Step::<bool, bool>::Finish(Outcome::Selected(yes)),
        ask_next(yes, Key::Esc) == Step::<bool, bool>::Finish(Outcome::Cancelled),
{
}

/// Swapping the confirm highlight twice restores it.
pub proof fn ask_swap_twice_restores(yes: bool, key: Key)
    requires
        key == Key::Up || key == Key::Down || key == Key::Left || key == Key::Right || key == Key::Tab,
    ensures
        ask_next(yes, key) == Step::<bool, bool>::Continue(!yes),
        ask_next(!yes, key) == Step::<bool, bool>::Continue(yes),
{
}

/// Backspace undoes a typed character.
pub proof fn backspace_undoes_typing(buf: Seq<char>, c: char)
    requires
        c != 'c',
    ensures
        input_next(buf, Key::Char { c, ctrl: false }) == Step::<Seq<char>, Seq<char>>::Continue(buf.push(c)),
        input_next(buf.push(c), Key::Backspace) == Step::<Seq<char>, Seq<char>>::Continue(buf),
{
    assert(buf.push(c).drop_last() =~= buf);
}

/// The lines of the confirm panel.
pub open spec fn ask_lines(question: Seq<char>, yes: bool) -> Seq<Seq<char>> {
    seq![
        question,
        seq![],
        if yes {
            "  [ Yes ]    No   "@
        } else {
            "   Yes   [ No ]  "@
        },
        seq![],
        "↑/↓ or y/n · Enter commit · Esc cancel"@,
    ]
}

/// The character-sequence views of some lines.
pub open spec fn line_views(lines: Seq<String>) -> Seq<Seq<char>> {
    lines.map_values(|l: String| l@)
}

/// The body of the confirm panel for `question` with `yes` highlighted.
pub fn ask_body(question: &str, yes: bool) -> (body: Vec<String>)
    ensures
        line_views(body@) == ask_lines(question@, yes),
{
    let choice = if yes {
        "  [ Yes ]    No   ".to_owned()
    } else {
        "   Yes   [ No ]  ".to_owned()
    };
    let body = vec![
        question.to_owned(),
        String::new(),
        choice,
        String::new(),
        "↑/↓ or y/n · Enter commit · Esc cancel".to_owned(),
    ];
    assert(line_views(body@) =~= ask_lines(question@, yes));
    body
}

/// The line of the picker showing `choice`, marked when highlighted.
pub open spec fn pick_line(choice: Seq<char>, highlighted: bool) -> Seq<char> {
    seq![' '] + (if highlighted {
        seq!['›']
    } else {
        seq![' ']
    }) + seq![' '] + choice
}

/// The lines showing the choices, `idx` highlighted.
pub open spec fn pick_choice_lines(choices: Seq<Seq<char>>, idx: int) -> Seq<Seq<char>> {
    Seq::new(choices.len(), |i: int| pick_line(choices[i], i == idx))
}

/// The lines of the picker panel.
pub open spec fn pick_lines(prompt: Seq<char>, choices: Seq<Seq<char>>, idx: int) -> Seq<Seq<char>> {
    seq![prompt, seq![]] + pick_choice_lines(choices, idx) + seq![
        seq![],
        "↑/↓ · Enter commit · Esc cancel"@,
    ]
}

/// The body of the picker panel for `prompt` and `choices`, with
/// `choices[idx]` highlighted.
pub fn pick_body(prompt: &str, choices: &[String], idx: usize) -> (body: Vec<String>)
    ensures
        line_views(body@) == pick_lines(prompt@, line_views(choices@), idx as int),
{
    let mut body: Vec<String> = vec![prompt.to_owned(), String::new()];
    let mut i: usize = 0;
    while i < choices.len()
        invariant
            i <= choices@.len(),
            line_views(body@) =~= seq![prompt@, seq![]] + pick_choice_lines(
                line_views(choices@),
                idx as int,
            ).take(i as int),
        decreases choices@.len() - i,
    {
        let mut line = String::new();
        line.push(' ');
        if i == idx {
            line.push('›');
        } else {
            line.push(' ');
        }
        line.push(' ');
        line.push_str(choices[i].as_str());
        assert(line@ =~= pick_line(choices@[i as int]@, i == idx));
        let ghost prev = body@;
        body.push(line);
        assert(line_views(body@) =~= line_views(prev).push(line@));
        assert(pick_choice_lines(line_views(choices@), idx as int).take(i + 1) =~= pick_choice_lines(
            line_views(choices@),
            idx as int,
        ).take(i as int).push(line@));
        i += 1;
    }
    let ghost prev = body@;
    body.push(String::new());
    body.push("↑/↓ · Enter commit · Esc cancel".to_owned());
    assert(line_views(body@) =~= line_views(prev).push(seq![]).push(
        "↑/↓ · Enter commit · Esc cancel"@,
    ));
    assert(pick_choice_lines(line_views(choices@), idx as int).take(choices@.len() as int)
        =~= pick_choice_lines(line_views(choices@), idx as int));
    assert(line_views(body@) =~= pick_lines(prompt@, line_views(choices@), idx as int));
    body
}

/// The lines of the input panel.
pub open spec fn input_lines(prompt: Seq<char>, buf: Seq<char>) -> Seq<Seq<char>> {
    seq![prompt, seq![], seq![' ', ' ', '▌', ' '] + buf, seq![], "Enter commit · Esc cancel · Backspace"@]
}

/// The body of the input panel for `prompt` with `buf` typed so far.
pub fn input_body(prompt: &str, buf: &str) -> (body: Vec<String>)
    ensures
        line_views(body@) == input_lines(prompt@, buf@),
{
    let mut typed = String::new();
    typed.push(' ');
    typed.push(' ');
    typed.push('▌');
    typed.push(' ');
    typed.push_str(buf);
    assert(typed@ =~= seq![' ', ' ', '▌', ' '] + buf@);
    let body = vec![
        prompt.to_owned(),
        String::new(),
        typed,
        String::new(),
        "Enter commit · Esc cancel · Backspace".to_owned(),
    ];
    assert(line_views(body@) =~= input_lines(prompt@, buf@));
    body
}

/// How the plain confirm prompt reads a typed line: nothing but white space
/// cancels; a reply starting with `y` or `Y` is yes; anything else is no.
pub open spec fn answer_of(line: Seq<char>) -> Outcome<bool> {
    let t = trimmed(line);
    if t.len() == 0 {
        Outcome::Cancelled
    } else if t[0] == 'y' || t[0] == 'Y' {
        Outcome::Selected(true)
    } else {
        Outcome::Selected(false)
    }
}

/// Reads the answer to the plain `[y/N]` confirm prompt from a typed line.
pub fn answer_from_line(line: &str) -> (r: Outcome<bool>)
    ensures
        r == answer_of(line@),
{
    let t = trim_chars(line);
    if t.len() == 0 {
        Outcome::Cancelled
    } else if t[0] == 'y' || t[0] == 'Y' {
        Outcome::Selected(true)
    } else {
        Outcome::Selected(false)
    }
}

/// How the plain picker reads a typed line: empty after trimming cancels; a
/// number below the count of choices selects that choice; otherwise a choice
/// equal to the trimmed line is selected; otherwise the pick is cancelled.
pub open spec fn choice_of(line: Seq<char>, choices: Seq<Seq<char>>) -> Option<int> {
    let t = trimmed(line);
    if t.len() == 0 {
        None
    } else if parsed_usize(t) is Some && parsed_usize(t)->0 < choices.len() {
        Some(parsed_usize(t)->0 as int)
    } else if exists|i: int| 0 <= i < choices.len() && choices[i] == t {
        Some(choose|i: int| 0 <= i < choices.len() && choices[i] == t)
    } else {
        None
    }
}

fn chars_eq_string(v: &Vec<char>, s: &String) -> (r: bool)
    ensures
        r == (v@ == s@),
{
    let w = chars_of(s.as_str());
    if v.len() != w.len() {
        return false;
    }
    let mut i: usize = 0;
    while i < v.len()
        invariant
            w@ == s@,
            v@.len() == w@.len(),
            i <= v@.len(),
            forall|k: int| 0 <= k < i ==> v@[k] == w@[k],
        decreases v@.len() - i,
    {
        if v[i] != w[i] {
            return false;
        }
        i += 1;
    }
    assert(v@ =~= w@);
    true
}

/// Reads the plain picker's selection from a typed line: an index into
/// `choices` or a choice's exact text.
pub fn choice_from_line(line: &str, choices: &[String]) -> (r: Outcome<String>)
    ensures
        match choice_of(line@, line_views(choices@)) {
            Some(i) => r matches Outcome::Selected(s) && s@ == choices@[i]@,
            None => r == Outcome::<String>::Cancelled,
        },
{
    let t = trim_chars(line);
    if t.len() == 0 {
        return Outcome::Cancelled;
    }
    match parse_usize(t.as_slice()) {
        Some(n) => {
            if n < choices.len() {
                return Outcome::Selected(choices[n].as_str().to_owned());
            }
        },
        None => {},
    }
    let mut i: usize = 0;
    while i < choices.len()
        invariant
            t@ == trimmed(line@),
            t@.len() > 0,
            !(parsed_usize(t@) is Some && parsed_usize(t@)->0 < choices@.len()),
            i <= choices@.len(),
            forall|k: int| 0 <= k < i ==> line_views(choices@)[k] != t@,
        decreases choices@.len() - i,
    {
        if chars_eq_string(&t, &choices[i]) {
            proof {
                let views = line_views(choices@);
                assert(views[i as int] == t@);
                let j = choose|j: int| 0 <= j < views.len() && views[j] == t@;
                assert(views[j] == views[i as int]);
            }
            return Outcome::Selected(choices[i].as_str().to_owned());
        }
        i += 1;
    }
    Outcome::Cancelled
}

/// `s` without trailing carriage returns and line feeds.
pub open spec fn without_line_end(s: Seq<char>) -> Seq<char>
    decreases s.len(),
{
    if s.len() > 0 && (s.last() == '\r' || s.last() == '\n') {
        without_line_end(s.drop_last())
    } else {
        s
    }
}

/// How the plain input prompt reads a typed line: the line without its
/// trailing CR/LF characters; cancelled when that is empty.
pub open spec fn input_of(line: Seq<char>) -> Option<Seq<char>> {
    if without_line_end(line).len() == 0 {
        None
    } else {
        Some(without_line_end(line))
    }
}

/// Reads the plain input prompt's value from a typed line.
pub fn input_from_line(line: &str) -> (r: Outcome<String>)
    ensures
        match input_of(line@) {
            Some(t) => r matches Outcome::Selected(s) && s@ == t,
            None => r == Outcome::<String>::Cancelled,
        },
{
    let mut v = chars_of(line);
    while v.len() > 0 && (v[v.len() - 1] == '\r' || v[v.len() - 1] == '\n')
        invariant
            without_line_end(v@) == without_line_end(line@),
        decreases v@.len(),
    {
        let _ = v.pop();
    }
    if v.len() == 0 {
        Outcome::Cancelled
    } else {
        Outcome::Selected(string_from_chars(&v))
    }
}

} // verus!
