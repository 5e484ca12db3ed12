//! Shell hooks: recognising image-handling commands, rewriting aliased
//! commands, and generating the shell code that hooks klipdot into bash and
//! zsh. Checking files and running shells stands outside.

use vstd::prelude::*;

use crate::klipdot::keys_distinct;
use crate::klipdot::error::Error;
use crate::klipdot::patterns::{compile, is_match, regex_compiles, regex_finds, Pattern};
use crate::text::{contains, str_contains, str_eq, words, words_of};

verus! {

/// Pattern of a command naming an image file.
pub const IMAGE_FILE_ARGUMENT: &'static str = r#"\.(png|jpe?g|gif|bmp|webp|svg|tiff?|ico)\b"#;

/// Pattern of a screenshot command.
pub const SCREENSHOT_COMMAND: &'static str = r#"^\s*(screencapture|screenshot|scrot|gnome-screenshot|spectacle|flameshot|grim|grimshot|wayshot)\b"#;

/// The patterns of commands that handle images.
pub open spec fn image_command_patterns() -> Seq<Seq<char>> {
    seq![IMAGE_FILE_ARGUMENT@, SCREENSHOT_COMMAND@]
}

/// The commands klipdot wraps, with their wrapper functions.
pub open spec fn default_aliases() -> Seq<(Seq<char>, Seq<char>)> {
    seq![("cp"@, "klipdot_cp"@), ("mv"@, "klipdot_mv"@), ("scp"@, "klipdot_scp"@)]
}

/// The environment the hooks export.
pub open spec fn default_environment() -> Seq<(Seq<char>, Seq<char>)> {
    seq![("KLIPDOT_ENABLED"@, "1"@), ("KLIPDOT_LOG_LEVEL"@, "info"@)]
}

/// The shell functions every integration defines.
pub const HOOK_FUNCTIONS: &'static str = r#"
# KlipDot Hook Functions

klipdot_handle_file() {
    local file_path="$1"
    local source="${2:-terminal}"
    
    if [[ -f "$file_path" ]]; then
        local mime_type=$(file --mime-type -b "$file_path" 2>/dev/null || echo "")
        if [[ "$mime_type" =~ ^image/ ]]; then
            if command -v klipdot >/dev/null 2>&1; then
                klipdot --quiet process-file "$file_path" --source "$source" 2>/dev/null &
            fi
        fi
    fi
}

klipdot_scan_args() {
    local cmd="$1"
    shift
    
    for arg in "$@"; do
        if [[ -f "$arg" ]]; then
            klipdot_handle_file "$arg" "command"
        fi
    done
}

klipdot_monitor_directory() {
    local dir="${1:-.}"
    
    if [[ -d "$dir" ]]; then
        for file in "$dir"/*.{png,jpg,jpeg,gif,bmp,webp,svg}; do
            if [[ -f "$file" ]]; then
                local age=$(stat -c %Y "$file" 2>/dev/null || stat -f %m "$file" 2>/dev/null || echo 0)
                local now=$(date +%s)
                local diff=$((now - age))
                
                # Process files created/modified in the last 30 seconds
                if [[ $diff -lt 30 ]]; then
                    klipdot_handle_file "$file" "directory"
                fi
            fi
        done 2>/dev/null
    fi
}

klipdot_preexec_hook() {
    local cmd="$1"
    
    # Extract command and arguments
    local cmd_array=($cmd)
    local base_cmd="${cmd_array[0]}"
    
    # Check for image-related operations
    case "$base_cmd" in
        cp|mv|scp|rsync|wget|curl)
            klipdot_scan_args "$cmd" "${cmd_array[@]:1}"
            ;;
        screencapture|screenshot|scrot|gnome-screenshot|spectacle|flameshot)
            echo "[KlipDot] Screenshot command detected: $base_cmd"
            ;;
    esac
}

klipdot_precmd_hook() {
    # Monitor current directory for new images
    klipdot_monitor_directory "."
    
    # Also monitor common screenshot directories
    klipdot_monitor_directory "$HOME/Desktop"
    klipdot_monitor_directory "$HOME/Downloads"
    klipdot_monitor_directory "$HOME/Pictures"
}

# Clipboard monitoring function
klipdot_monitor_clipboard() {
    if command -v klipdot >/dev/null 2>&1; then
        klipdot --quiet monitor-clipboard 2>/dev/null &
    fi
}

# Initialize clipboard monitoring if not already running
if [[ -z "$KLIPDOT_CLIPBOARD_PID" ]]; then
    klipdot_monitor_clipboard
    export KLIPDOT_CLIPBOARD_PID=$!
fi
"#;

/// Start of a command wrapper, before the command's name.
pub const WRAPPER_OPEN: &'static str = r#"
"#;

/// Wrapper text between the function name and the command line.
pub const WRAPPER_HEAD: &'static str = r#"() {
    local result
    local cmd_line=""#;

/// Wrapper text between the command line and the command run.
pub const WRAPPER_BODY: &'static str = r#" $*"
    
    # Pre-execution hook
    klipdot_preexec_hook "$cmd_line"
    
    # Execute original command
    command "#;

/// End of a command wrapper.
pub const WRAPPER_TAIL: &'static str = r#" "$@"
    result=$?
    
    # Post-execution hook
    klipdot_scan_args "$cmd_line" "$@"
    
    return $result
}
"#;

/// The zsh hook registration.
pub const ZSH_HOOKS: &'static str = r#"
# ZSH-specific integration
if [[ -n "$ZSH_VERSION" ]]; then
    autoload -Uz add-zsh-hook
    add-zsh-hook preexec klipdot_preexec_hook
    add-zsh-hook precmd klipdot_precmd_hook
fi
"#;

/// The bash hook registration.
pub const BASH_HOOKS: &'static str = r#"
# Bash-specific integration
if [[ -n "$BASH_VERSION" ]]; then
    trap 'klipdot_preexec_hook "$BASH_COMMAND"' DEBUG
    
    if [[ -z "$PROMPT_COMMAND" ]]; then
        PROMPT_COMMAND="klipdot_precmd_hook"
    else
        PROMPT_COMMAND="klipdot_precmd_hook;$PROMPT_COMMAND"
    fi
fi
"#;

/// The wrapper function of command `name`: it runs the pre-execution hook,
/// the command itself, then scans the arguments.
pub open spec fn command_wrapper(name: Seq<char>) -> Seq<char> {
    WRAPPER_OPEN@ + name + WRAPPER_HEAD@ + name + WRAPPER_BODY@ + name + WRAPPER_TAIL@
}

/// The wrappers of the aliased commands, in order.
pub open spec fn wrappers_text(aliases: Seq<(Seq<char>, Seq<char>)>) -> Seq<char>
    decreases aliases.len(),
{
    if aliases.len() == 0 {
        seq![]
    } else {
        wrappers_text(aliases.drop_last()) + command_wrapper(aliases.last().0)
    }
}

/// `export` lines for the environment, in order.
pub open spec fn exports_text(env: Seq<(Seq<char>, Seq<char>)>) -> Seq<char>
    decreases env.len(),
{
    if env.len() == 0 {
        seq![]
    } else {
        exports_text(env.drop_last()) + "export "@ + env.last().0 + "=\""@ + env.last().1 + "\"\n"@
    }
}

/// The environment setup block.
pub open spec fn environment_text(env: Seq<(Seq<char>, Seq<char>)>) -> Seq<char> {
    "# KlipDot Environment Setup\n"@ + exports_text(env) + "\n"@
}

/// The shell-specific registration for `shell`.
pub open spec fn shell_tail(shell: Seq<char>) -> Seq<char> {
    if shell == "zsh"@ {
        ZSH_HOOKS@
    } else if shell == "bash"@ {
        BASH_HOOKS@
    } else {
        "# Generic shell integration\n"@
    }
}

/// The alias of command `name`: that of its first entry, if any.
pub open spec fn alias_for(aliases: Seq<(Seq<char>, Seq<char>)>, name: Seq<char>) -> Option<Seq<char>>
    decreases aliases.len(),
{
    if aliases.len() == 0 {
        None
    } else if aliases[0].0 == name {
        Some(aliases[0].1)
    } else {
        alias_for(aliases.drop_first(), name)
    }
}

/// Each word preceded by a space.
pub open spec fn spaced(ws: Seq<Seq<char>>) -> Seq<char>
    decreases ws.len(),
{
    if ws.len() == 0 {
        seq![]
    } else {
        spaced(ws.drop_last()) + seq![' '] + ws.last()
    }
}

/// A command with its first word replaced by that word's alias, words
/// re-joined by single spaces; `None` when the first word has no alias (or
/// there is none).
pub open spec fn replacement_of(aliases: Seq<(Seq<char>, Seq<char>)>, command: Seq<char>) -> Option<
    Seq<char>,
> {
    let ws = words_of(command);
    if ws.len() == 0 {
        None
    } else {
        match alias_for(aliases, ws[0]) {
            Some(a) => Some(a + spaced(ws.skip(1))),
            None => None,
        }
    }
}

/// Whether a shell start-up file already mentions klipdot.
pub open spec fn mentions_klipdot(content: Seq<char>) -> bool {
    contains(content, "klipdot"@) || contains(content, "KlipDot"@)
}

/// Generates and applies klipdot's shell hooks.
pub struct ShellHookManager {
    /// The patterns of image-handling commands.
    pub patterns: Vec<Pattern>,
    /// `(command, wrapper)` pairs; a command occurs at most once.
    pub command_aliases: Vec<(String, String)>,
    /// `(name, value)` pairs exported by the hooks.
    pub environment_vars: Vec<(String, String)>,
}

impl ShellHookManager {
    /// The pattern texts of the manager's patterns.
    pub open spec fn pattern_texts(&self) -> Seq<Seq<char>> {
        Seq::new(self.patterns@.len(), |i: int| self.patterns@[i].text())
    }

    /// A manager with the image-command patterns compiled, aliases for `cp`,
    /// `mv` and `scp`, and the hooks' environment. A pattern that fails to
    /// compile is a `Parse` error.
    pub fn new() -> (r: Result<Self, Error>)
        ensures
            r is Ok <==> (forall|i: int|
                0 <= i < image_command_patterns().len() ==> regex_compiles(
                    #[trigger] image_command_patterns()[i],
                )),
            r matches Ok(m) ==> {
                &&& m.pattern_texts() == image_command_patterns()
                &&& m.command_aliases.deep_view() == default_aliases()
                &&& m.environment_vars.deep_view() == default_environment()
                &&& keys_distinct(m.command_aliases.deep_view())
                &&& keys_distinct(m.environment_vars.deep_view())
            },
            r matches Err(e) ==> e is Parse,
    {
        let mut patterns: Vec<Pattern> = Vec::new();
        match compile(IMAGE_FILE_ARGUMENT) {
            Ok(p) => patterns.push(p),
            Err(msg) => {
                assert(!regex_compiles(image_command_patterns()[0]));
                return Err(pattern_error(IMAGE_FILE_ARGUMENT, msg));
            },
        }
        match compile(SCREENSHOT_COMMAND) {
            Ok(p) => patterns.push(p),
            Err(msg) => {
                assert(!regex_compiles(image_command_patterns()[1]));
                return Err(pattern_error(SCREENSHOT_COMMAND, msg));
            },
        }
        let mut command_aliases: Vec<(String, String)> = Vec::new();
        command_aliases.push(("cp".to_owned(), "klipdot_cp".to_owned()));
        command_aliases.push(("mv".to_owned(), "klipdot_mv".to_owned()));
        command_aliases.push(("scp".to_owned(), "klipdot_scp".to_owned()));
        let mut environment_vars: Vec<(String, String)> = Vec::new();
        environment_vars.push(("KLIPDOT_ENABLED".to_owned(), "1".to_owned()));
        environment_vars.push(("KLIPDOT_LOG_LEVEL".to_owned(), "info".to_owned()));
        let m = ShellHookManager { patterns, command_aliases, environment_vars };
        assert(m.pattern_texts() =~= image_command_patterns());
        assert(m.command_aliases.deep_view() =~= default_aliases());
        assert(m.environment_vars.deep_view() =~= default_environment());
        proof {
            reveal_strlit("cp");
            reveal_strlit("mv");
            reveal_strlit("scp");
            reveal_strlit("KLIPDOT_ENABLED");
            reveal_strlit("KLIPDOT_LOG_LEVEL");
            let a = default_aliases();
            let v = default_environment();
            assert forall|i: int, j: int| 0 <= i < j < a.len() implies a[i].0 != a[j].0 by {
                assert(a[i].0.len() != a[j].0.len() || a[i].0[0] != a[j].0[0]);
            }
            assert(v[0].0.len() != v[1].0.len());
        }
        Ok(m)
    }

    /// Whether one of the patterns matches the command.
    pub fn is_image_command(&self, command: &str) -> (r: bool)
        ensures
            r == exists|i: int| 0 <= i < self.patterns@.len() && regex_finds(
                #[trigger] self.pattern_texts()[i],
                command@,
            ),
    {
        let mut i: usize = 0;
        while i < self.patterns.len()
            invariant
                i <= self.patterns@.len(),
                forall|k: int| 0 <= k < i ==> !regex_finds(#[trigger] self.pattern_texts()[k], command@),
            decreases self.patterns@.len() - i,
        {
            if is_match(&self.patterns[i], command) {
                assert(self.pattern_texts()[i as int] == self.patterns@[i as int].text());
                return true;
            }
            i += 1;
        }
        false
    }

    /// The words of a command that name image files, by extension, in order;
    /// which of them exist as files is for the caller to check.
    pub fn extract_image_files(&self, command: &str) -> (r: Vec<String>)
        ensures
            r.deep_view() == words_of(command@).filter(|w: Seq<char>| crate::klipdot::paths::image_path(w)),
    {
        let ws = words(command);
        let mut r: Vec<String> = Vec::new();
        let mut i: usize = 0;
        while i < ws.len()
            invariant
                i <= ws@.len(),
                ws.deep_view() == words_of(command@),
                r.deep_view() == ws.deep_view().take(i as int).filter(
                    |w: Seq<char>| crate::klipdot::paths::image_path(w),
                ),
            decreases ws@.len() - i,
        {
            let ghost before = r.deep_view();
            assert(ws.deep_view().take(i + 1).drop_last() =~= ws.deep_view().take(i as int));
            reveal(Seq::filter);
            if crate::klipdot::paths::is_image_file(ws[i].as_str()) {
                r.push(ws[i].clone());
                assert(r.deep_view() =~= before.push(ws.deep_view()[i as int]));
            }
            i += 1;
        }
        assert(ws.deep_view().take(ws@.len() as int) =~= ws.deep_view());
        r
    }

    /// Whether to intercept a command: it matches an image pattern, or one of
    /// its image-file arguments exists (`image_file_exists`, as the caller
    /// found).
    pub fn should_intercept_command(&self, command: &str, image_file_exists: bool) -> (r: bool)
        ensures
            r == (image_file_exists || exists|i: int|
                0 <= i < self.patterns@.len() && regex_finds(#[trigger] self.pattern_texts()[i], command@)),
    {
        self.is_image_command(command) || image_file_exists
    }

    /// The command with its first word replaced by that word's alias. No
    /// word has two aliases, as in every table the constructors build.
    pub fn get_command_replacement(&self, command: &str) -> (r: Option<String>)
        requires
            keys_distinct(self.command_aliases.deep_view()),
        ensures
            r.deep_view() == replacement_of(self.command_aliases.deep_view(), command@),
    {
        let ws = words(command);
        if ws.len() == 0 {
            return None;
        }
        let mut i: usize = 0;
        let aliases = &self.command_aliases;
        assert(aliases.deep_view().skip(0) =~= aliases.deep_view());
        while i < aliases.len()
            invariant
                i <= aliases@.len(),
                *aliases == self.command_aliases,
                ws.deep_view() == words_of(command@),
                ws@.len() > 0,
                alias_for(aliases.deep_view(), ws.deep_view()[0]) == alias_for(
                    aliases.deep_view().skip(i as int),
                    ws.deep_view()[0],
                ),
            decreases aliases@.len() - i,
        {
            assert(aliases.deep_view().skip(i as int).drop_first() =~= aliases.deep_view().skip(i + 1));
            assert(aliases.deep_view().skip(i as int)[0] == aliases.deep_view()[i as int]);
            if str_eq(aliases[i].0.as_str(), ws[0].as_str()) {
                let mut out = aliases[i].1.clone();
                let mut k: usize = 1;
                assert(ws.deep_view().skip(1).take(0) =~= Seq::<Seq<char>>::empty());
                while k < ws.len()
                    invariant
                        1 <= k <= ws@.len(),
                        out@ == aliases@[i as int].1@ + spaced(ws.deep_view().skip(1).take(k - 1)),
                    decreases ws@.len() - k,
                {
                    out.push(' ');
                    out.push_str(ws[k].as_str());
                    assert(ws.deep_view().skip(1).take(k as int).drop_last() =~= ws.deep_view().skip(1).take(
                        k - 1,
                    ));
                    assert(ws.deep_view().skip(1).take(k as int).last() == ws.deep_view()[k as int]);
                    k += 1;
                }
                assert(ws.deep_view().skip(1).take(k - 1) =~= ws.deep_view().skip(1));
                return Some(out);
            }
            i += 1;
        }
        assert(aliases.deep_view().skip(i as int) =~= Seq::<(Seq<char>, Seq<char>)>::empty());
        None
    }

    /// The shell functions every integration defines.
    pub fn generate_hook_functions(&self) -> (r: String)
        ensures
            r@ == HOOK_FUNCTIONS@,
    {
        HOOK_FUNCTIONS.to_owned()
    }

    /// A wrapper function for each aliased command, in order.
    pub fn generate_command_wrappers(&self) -> (r: String)
        ensures
            r@ == wrappers_text(self.command_aliases.deep_view()),
    {
        let mut r = String::new();
        let mut i: usize = 0;
        while i < self.command_aliases.len()
            invariant
                i <= self.command_aliases@.len(),
                r@ == wrappers_text(self.command_aliases.deep_view().take(i as int)),
            decreases self.command_aliases@.len() - i,
        {
            let name = self.command_aliases[i].0.as_str();
            r.push_str(WRAPPER_OPEN);
            r.push_str(name);
            r.push_str(WRAPPER_HEAD);
            r.push_str(name);
            r.push_str(WRAPPER_BODY);
            r.push_str(name);
            r.push_str(WRAPPER_TAIL);
            assert(self.command_aliases.deep_view().take(i + 1).drop_last() =~= self.command_aliases.deep_view().take(
                i as int,
            ));
            i += 1;
        }
        assert(self.command_aliases.deep_view().take(i as int) =~= self.command_aliases.deep_view());
        r
    }

    /// The environment setup block: a header, one `export` line per
    /// variable, and a blank line.
    pub fn generate_environment_setup(&self) -> (r: String)
        ensures
            r@ == environment_text(self.environment_vars.deep_view()),
    {
        let mut r = String::new();
        r.push_str("# KlipDot Environment Setup\n");
        let ghost head = r@;
        let mut i: usize = 0;
        while i < self.environment_vars.len()
            invariant
                i <= self.environment_vars@.len(),
                r@ == head + exports_text(self.environment_vars.deep_view().take(i as int)),
            decreases self.environment_vars@.len() - i,
        {
            r.push_str("export ");
            r.push_str(self.environment_vars[i].0.as_str());
            r.push_str("=\"");
            r.push_str(self.environment_vars[i].1.as_str());
            r.push_str("\"\n");
            assert(self.environment_vars.deep_view().take(i + 1).drop_last() =~= self.environment_vars.deep_view().take(
                i as int,
            ));
            i += 1;
        }
        assert(self.environment_vars.deep_view().take(i as int) =~= self.environment_vars.deep_view());
        r.push('\n');
        proof {
            reveal_strlit("\n");
        }
        r
    }

    /// The full integration for `shell_type`: environment setup, hook
    /// functions, command wrappers, then the zsh or bash registration (a
    /// comment for any other shell).
    pub fn generate_shell_integration(&self, shell_type: &str) -> (r: String)
        ensures
            r@ == environment_text(self.environment_vars.deep_view()) + HOOK_FUNCTIONS@ + wrappers_text(
                self.command_aliases.deep_view(),
            ) + shell_tail(shell_type@),
    {
        let mut r = self.generate_environment_setup();
        r.push_str(HOOK_FUNCTIONS);
        let w = self.generate_command_wrappers();
        r.push_str(w.as_str());
        if str_eq(shell_type, "zsh") {
            r.push_str(ZSH_HOOKS);
        } else if str_eq(shell_type, "bash") {
            r.push_str(BASH_HOOKS);
        } else {
            r.push_str("# Generic shell integration\n");
        }
        r
    }
}

impl Default for ShellHookManager {
    /// The manager `new` builds; one with no patterns, aliases or environment
    /// when a pattern does not compile.
    fn default() -> (m: Self)
        ensures
            (forall|i: int|
                0 <= i < image_command_patterns().len() ==> regex_compiles(
                    #[trigger] image_command_patterns()[i],
                )) ==> {
                &&& m.pattern_texts() == image_command_patterns()
                &&& m.command_aliases.deep_view() == default_aliases()
                &&& m.environment_vars.deep_view() == default_environment()
            },
            keys_distinct(m.command_aliases.deep_view()),
            keys_distinct(m.environment_vars.deep_view()),
            !(forall|i: int|
                0 <= i < image_command_patterns().len() ==> regex_compiles(
                    #[trigger] image_command_patterns()[i],
                )) ==> {
                &&& m.patterns@.len() == 0
                &&& m.command_aliases@.len() == 0
                &&& m.environment_vars@.len() == 0
            },
    {
        match Self::new() {
            Ok(m) => m,
            Err(_) => ShellHookManager {
                patterns: Vec::new(),
                command_aliases: Vec::new(),
                environment_vars: Vec::new(),
            },
        }
    }
}

fn pattern_error(pattern: &str, msg: String) -> (e: Error)
    ensures
        e is Parse,
{
    let mut m = String::new();
    m.push_str("Invalid regex pattern '");
    m.push_str(pattern);
    m.push_str("': ");
    m.push_str(msg.as_str());
    Error::Parse(m)
}

/// Whether klipdot's hooks are in place.
#[derive(Debug, Clone, Copy, PartialEq, Eq, Structural)]
pub struct HookStatus {
    pub binary_available: bool,
    pub hooks_installed: bool,
    pub bash_integrated: bool,
    pub zsh_integrated: bool,
}

impl Default for HookStatus {
    /// Nothing in place.
    fn default() -> (s: Self)
        ensures
            !s.binary_available && !s.hooks_installed && !s.bash_integrated && !s.zsh_integrated,
    {
        HookStatus { binary_available: false, hooks_installed: false, bash_integrated: false, zsh_integrated: false }
    }
}

impl HookStatus {
    /// The status from what was found: whether the binary runs, whether the
    /// hooks directory exists, and the contents of `.bashrc` and `.zshrc`
    /// (`None` when missing or unreadable); a start-up file is integrated
    /// when it mentions klipdot.
    pub fn from_checks(
        binary_available: bool,
        hooks_installed: bool,
        bashrc: Option<&str>,
        zshrc: Option<&str>,
    ) -> (s: Self)
        ensures
            s.binary_available == binary_available,
            s.hooks_installed == hooks_installed,
            s.bash_integrated == (bashrc matches Some(c) && mentions_klipdot(c@)),
            s.zsh_integrated == (zshrc matches Some(c) && mentions_klipdot(c@)),
    {
        let bash_integrated = match bashrc {
            Some(c) => str_contains(c, "klipdot") || str_contains(c, "KlipDot"),
            None => false,
        };
        let zsh_integrated = match zshrc {
            Some(c) => str_contains(c, "klipdot") || str_contains(c, "KlipDot"),
            None => false,
        };
        HookStatus { binary_available, hooks_installed, bash_integrated, zsh_integrated }
    }
}

} // verus!
