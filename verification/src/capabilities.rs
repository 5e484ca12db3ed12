//! Terminal capabilities and how they are inferred from the environment and
//! from the terminal's answer to a kitty-graphics query.

use vstd::prelude::*;

use crate::text::{bytes_contain, contains, str_contains, str_eq};

verus! {

/// What the attached terminal can render.
#[derive(Debug, Clone, PartialEq, Eq)]
pub struct Capabilities {
    /// Supports kitty-graphics-protocol APC `_G` sequences.
    pub graphics: bool,
    /// Supports sixel (DECSIXEL).
    pub sixel: bool,
    /// Supports 24-bit truecolor SGR.
    pub truecolor: bool,
    /// Assumed unicode column width support (1 = ASCII only, 2 = full unicode/wide).
    pub unicode_width: u16,
    /// Human-readable name of the detected terminal.
    pub terminal: String,
    /// Whether stdout is a TTY at detection time.
    pub is_tty: bool,
    /// Supports OSC 8 hyperlinks.
    pub hyperlinks: bool,
    /// Supports OSC 52 clipboard writes.
    pub clipboard: bool,
    /// Supports OSC 133 semantic prompt / task markers.
    pub task_markers: bool,
    /// Supports the kitty keyboard protocol.
    pub kitty_keyboard: bool,
    /// Running inside tmux (sequences need DCS passthrough).
    pub in_tmux: bool,
}

impl Capabilities {
    /// The safe default: nothing beyond plain ASCII text.
    pub fn plain() -> (c: Self)
        ensures
            !c.graphics,
            !c.sixel,
            !c.truecolor,
            c.unicode_width == 1,
            c.terminal@ == "unknown"@,
            !c.is_tty,
            !c.hyperlinks,
            !c.clipboard,
            !c.task_markers,
            !c.kitty_keyboard,
            !c.in_tmux,
    {
        Capabilities {
            graphics: false,
            sixel: false,
            truecolor: false,
            unicode_width: 1,
            terminal: "unknown".to_owned(),
            is_tty: false,
            hyperlinks: false,
            clipboard: false,
            task_markers: false,
            kitty_keyboard: false,
            in_tmux: false,
        }
    }
}

/// The environment variables that capability detection reads. Absent string
/// variables are empty; the flags say whether a variable is set at all.
#[derive(Debug, Clone)]
pub struct TerminalEnv {
    /// `TERM`.
    pub term: String,
    /// `TERM_PROGRAM`.
    pub term_program: String,
    /// `COLORTERM`.
    pub colorterm: String,
    /// `WEZTERM_EXECUTABLE` is set.
    pub wezterm: bool,
    /// `KITTY_WINDOW_ID` is set.
    pub kitty: bool,
    /// `KONSOLE_VERSION` is set.
    pub konsole: bool,
    /// `TMUX` is set.
    pub tmux: bool,
}

/// The terminal's name as the environment reveals it.
pub open spec fn terminal_name(env: TerminalEnv) -> Seq<char> {
    if env.term_program@ == "ghostty"@ || env.term_program@ == "Ghostty"@ || env.term@
        == "xterm-ghostty"@ {
        "ghostty"@
    } else if env.kitty || contains(env.term@, "kitty"@) {
        "kitty"@
    } else if env.wezterm || env.term_program@ == "WezTerm"@ {
        "wezterm"@
    } else if env.term_program@ == "iTerm.app"@ {
        "iterm2"@
    } else if env.konsole {
        "konsole"@
    } else if env.term@.len() != 0 {
        env.term@
    } else {
        "unknown"@
    }
}

/// Terminals known to render kitty graphics.
pub open spec fn graphics_terminal(name: Seq<char>) -> bool {
    name == "ghostty"@ || name == "kitty"@ || name == "wezterm"@
}

/// Terminals known to render sixel.
pub open spec fn sixel_terminal(name: Seq<char>) -> bool {
    name == "konsole"@ || name == "iterm2"@ || name == "wezterm"@
}

/// Terminals known to handle OSC 8 links, OSC 52 clipboard writes and OSC 133
/// markers.
pub open spec fn osc_terminal(name: Seq<char>) -> bool {
    graphics_terminal(name) || name == "iterm2"@
}

/// Whether the kitty-graphics query is worth sending: stdout is a TTY and the
/// environment did not already establish graphics support.
pub open spec fn query_wanted(env: TerminalEnv, is_tty: bool) -> bool {
    is_tty && !graphics_terminal(terminal_name(env))
}

/// The capabilities for `env`, a TTY flag, and whether a kitty-graphics query
/// confirmed graphics support (consulted only when the query was wanted).
/// Graphics are forced off when stdout is not a TTY. The rules for
/// `hyperlinks`, `clipboard`, `task_markers` (the graphics terminals and
/// iTerm2), `kitty_keyboard` (the graphics terminals) and `in_tmux` (`TMUX`
/// set) are this library's own: detection names these capabilities but sets
/// no rule for them elsewhere.
pub open spec fn inferred(env: TerminalEnv, is_tty: bool, query_confirms: bool) -> Capabilities {
    let name = terminal_name(env);
    let env_graphics = graphics_terminal(name);
    Capabilities {
        graphics: is_tty && (env_graphics || query_confirms),
        sixel: sixel_terminal(name),
        truecolor: env.colorterm@ == "truecolor"@ || env.colorterm@ == "24bit"@ || env_graphics,
        unicode_width: if env.term@ == "dumb"@ || env.term@.len() == 0 {
            1
        } else {
            2
        },
        terminal: arbitrary(),
        is_tty: is_tty,
        hyperlinks: osc_terminal(name),
        clipboard: osc_terminal(name),
        task_markers: osc_terminal(name),
        kitty_keyboard: graphics_terminal(name),
        in_tmux: env.tmux,
    }
}

/// Graphics are claimed only for a TTY, whatever the environment and the
/// query say, and the terminal always gets a non-empty name.
pub proof fn graphics_need_a_tty(env: TerminalEnv, is_tty: bool, query_confirms: bool)
    ensures
        inferred(env, is_tty, query_confirms).graphics ==> is_tty,
        terminal_name(env).len() > 0,
{
    reveal_strlit("ghostty");
    reveal_strlit("kitty");
    reveal_strlit("wezterm");
    reveal_strlit("iterm2");
    reveal_strlit("konsole");
    reveal_strlit("unknown");
}

/// Whether `c` agrees with `inferred(env, is_tty, query_confirms)`, the
/// terminal name included.
pub open spec fn infers(c: Capabilities, env: TerminalEnv, is_tty: bool, query_confirms: bool) -> bool {
    let e = inferred(env, is_tty, query_confirms);
    &&& c.terminal@ == terminal_name(env)
    &&& c.graphics == e.graphics
    &&& c.sixel == e.sixel
    &&& c.truecolor == e.truecolor
    &&& c.unicode_width == e.unicode_width
    &&& c.is_tty == e.is_tty
    &&& c.hyperlinks == e.hyperlinks
    &&& c.clipboard == e.clipboard
    &&& c.task_markers == e.task_markers
    &&& c.kitty_keyboard == e.kitty_keyboard
    &&& c.in_tmux == e.in_tmux
}

/// iTerm2, Konsole and WezTerm render sixel: capabilities inferred for an
/// environment whose terminal is one of them report sixel support, whatever
/// the TTY flag and the graphics query. In particular `TERM_PROGRAM=iTerm.app`,
/// with no sign of Ghostty, kitty or WezTerm, is iTerm2 and gets sixel.
pub proof fn sixel_terminals_report_sixel(c: Capabilities, env: TerminalEnv, is_tty: bool, query_confirms: bool)
    requires
        infers(c, env, is_tty, query_confirms),
    ensures
        c.terminal@ == "iterm2"@ || c.terminal@ == "konsole"@ || c.terminal@ == "wezterm"@ ==> c.sixel,
        (env.term_program@ == "iTerm.app"@ && !env.kitty && !env.wezterm && !contains(env.term@, "kitty"@)
            && env.term@ != "xterm-ghostty"@) ==> c.terminal@ == "iterm2"@ && c.sixel,
{
    reveal_strlit("iTerm.app");
    reveal_strlit("ghostty");
    reveal_strlit("Ghostty");
    reveal_strlit("WezTerm");
    assert("iTerm.app"@ != "ghostty"@ && "iTerm.app"@ != "Ghostty"@ && "iTerm.app"@ != "WezTerm"@) by {
        assert("iTerm.app"@.len() != "ghostty"@.len());
        assert("iTerm.app"@[0] != "Ghostty"@[0]);
        assert("iTerm.app"@.len() != "WezTerm"@.len());
    }
}

/// The terminal's name as the environment reveals it.
pub fn detect_terminal_name(env: &TerminalEnv) -> (name: String)
    ensures
        name@ == terminal_name(*env),
{
    let tp = env.term_program.as_str();
    let term = env.term.as_str();
    if str_eq(tp, "ghostty") || str_eq(tp, "Ghostty") || str_eq(term, "xterm-ghostty") {
        "ghostty".to_owned()
    } else if env.kitty || str_contains(term, "kitty") {
        "kitty".to_owned()
    } else if env.wezterm || str_eq(tp, "WezTerm") {
        "wezterm".to_owned()
    } else if str_eq(tp, "iTerm.app") {
        "iterm2".to_owned()
    } else if env.konsole {
        "konsole".to_owned()
    } else if !term.is_empty() {
        term.to_owned()
    } else {
        "unknown".to_owned()
    }
}

fn is_graphics_terminal(name: &str) -> (r: bool)
    ensures
        r == graphics_terminal(name@),
{
    str_eq(name, "ghostty") || str_eq(name, "kitty") || str_eq(name, "wezterm")
}

/// Whether the kitty-graphics query is worth sending for `env`.
pub fn wants_graphics_query(env: &TerminalEnv, is_tty: bool) -> (r: bool)
    ensures
        r == query_wanted(*env, is_tty),
{
    let name = detect_terminal_name(env);
    is_tty && !is_graphics_terminal(name.as_str())
}

/// Capabilities from the environment, the TTY flag and the outcome of the
/// kitty-graphics query (pass `false` when it was not sent or not confirmed),
/// by the rules of [`inferred`], some of which are this library's own.
pub fn capabilities_from(env: &TerminalEnv, is_tty: bool, query_confirms: bool) -> (c: Capabilities)
    ensures
        infers(c, *env, is_tty, query_confirms),
{
    let name = detect_terminal_name(env);
    let n = name.as_str();
    let env_graphics = is_graphics_terminal(n);
    let iterm = str_eq(n, "iterm2");
    let sixel = str_eq(n, "konsole") || iterm || str_eq(n, "wezterm");
    let cterm = env.colorterm.as_str();
    let truecolor = str_eq(cterm, "truecolor") || str_eq(cterm, "24bit") || env_graphics;
    let term = env.term.as_str();
    let unicode_width: u16 = if str_eq(term, "dumb") || term.is_empty() {
        1
    } else {
        2
    };
    let osc = env_graphics || iterm;
    Capabilities {
        graphics: is_tty && (env_graphics || query_confirms),
        sixel,
        truecolor,
        unicode_width,
        terminal: name,
        is_tty,
        hyperlinks: osc,
        clipboard: osc,
        task_markers: osc,
        kitty_keyboard: env_graphics,
        in_tmux: env.tmux,
    }
}

/// Whether the bytes read back after the kitty-graphics query hold a complete
/// reply: the primary device-attributes answer `ESC [ ? ... c` has arrived
/// (the bytes `[?` occur and so does `c`).
pub fn query_reply_complete(buf: &[u8]) -> (r: bool)
    ensures
        r == (contains(buf@, seq![0x5bu8, 0x3fu8]) && buf@.contains(0x63u8)),
{
    let da = vec![0x5bu8, 0x3fu8];
    let c = vec![0x63u8];
    let has_c = bytes_contain(buf, c.as_slice());
    proof {
        assert(c@ =~= seq![0x63u8]);
        if buf@.contains(0x63u8) {
            let k = choose|k: int| 0 <= k < buf@.len() && buf@[k] == 0x63u8;
            assert(buf@.subrange(k, k + 1) =~= c@);
            assert(crate::text::occurs_at(buf@, c@, k));
        }
        if has_c {
            let k = choose|k: int| crate::text::occurs_at(buf@, c@, k);
            assert(buf@.subrange(k, k + 1)[0] == buf@[k]);
        }
    }
    assert(da@ =~= seq![0x5bu8, 0x3fu8]);
    bytes_contain(buf, da.as_slice()) && has_c
}

/// `_Gi=31;OK`, the graphics reply to the query (upper case).
pub open spec fn reply_ok_upper() -> Seq<u8> {
    seq![0x5fu8, 0x47u8, 0x69u8, 0x3du8, 0x33u8, 0x31u8, 0x3bu8, 0x4fu8, 0x4bu8]
}

/// `_Gi=31;ok`, the graphics reply to the query (lower case).
pub open spec fn reply_ok_lower() -> Seq<u8> {
    seq![0x5fu8, 0x47u8, 0x69u8, 0x3du8, 0x33u8, 0x31u8, 0x3bu8, 0x6fu8, 0x6bu8]
}

/// Whether the terminal's reply confirms kitty-graphics support: it holds
/// `_Gi=31;OK` or `_Gi=31;ok`.
pub fn query_reply_confirms(buf: &[u8]) -> (r: bool)
    ensures
        r == (contains(buf@, reply_ok_upper()) || contains(buf@, reply_ok_lower())),
{
    let upper = vec![0x5fu8, 0x47u8, 0x69u8, 0x3du8, 0x33u8, 0x31u8, 0x3bu8, 0x4fu8, 0x4bu8];
    let lower = vec![0x5fu8, 0x47u8, 0x69u8, 0x3du8, 0x33u8, 0x31u8, 0x3bu8, 0x6fu8, 0x6bu8];
    assert(upper@ =~= reply_ok_upper());
    assert(lower@ =~= reply_ok_lower());
    bytes_contain(buf, upper.as_slice()) || bytes_contain(buf, lower.as_slice())
}

} // verus!
