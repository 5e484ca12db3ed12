//! Installing klipdot's shell hooks: which start-up file and hook file a
//! shell uses, the hook scripts, the `source` line added to (and removed
//! from) the start-up file, and the desktop and systemd entries. Reading and
//! writing those files stands outside.

use vstd::prelude::*;

use crate::klipdot::{join, join_path, HOOKS_DIR};
use crate::text::{chars_of, contains, joined, join_strings, lines, lines_of, occurs_at, str_contains, str_eq};

verus! {

/// Opening of the zsh hook script, before klipdot's directory.
pub const ZSH_SCRIPT_HEAD: &'static str = r#"# KlipDot ZSH Integration
KLIPDOT_DIR=""#;

/// Opening of the bash hook script, before klipdot's directory.
pub const BASH_SCRIPT_HEAD: &'static str = r#"# KlipDot Bash Integration
KLIPDOT_DIR=""#;

/// Hook script text between klipdot's directory and its binary.
pub const SCRIPT_BIN: &'static str = r#""
KLIPDOT_BIN=""#;

/// The rest of the zsh hook script, after klipdot's binary.
pub const ZSH_SCRIPT_BODY: &'static str = r#""

# Function to handle image files
klipdot_handle_image() {
    local file_path="$1"
    if [[ -f "$file_path" ]]; then
        local mime_type=$(file --mime-type -b "$file_path" 2>/dev/null)
        if [[ "$mime_type" =~ ^image/ ]]; then
            "$KLIPDOT_BIN" --quiet process-file "$file_path" 2>/dev/null &
            return $?
        fi
    fi
    return 1
}

# Hook into command execution
preexec_klipdot() {
    local cmd="$1"
    
    # Check for image-related commands
    if [[ "$cmd" =~ (cp|mv|scp|rsync).*\.(png|jpg|jpeg|gif|bmp|webp|svg) ]]; then
        echo "[KlipDot] Image operation detected"
    fi
    
    # Check for file arguments that might be images
    local args=("${(@s/ /)cmd}")
    for arg in "${args[@]}"; do
        if [[ -f "$arg" ]]; then
            klipdot_handle_image "$arg"
        fi
    done
}

# Hook into command completion
precmd_klipdot() {
    # Check for new files in current directory
    for file in *.{png,jpg,jpeg,gif,bmp,webp,svg}(N); do
        if [[ -f "$file" ]]; then
            klipdot_handle_image "$file"
        fi
    done
}

# Add hooks to ZSH
if [[ -n "$ZSH_VERSION" ]]; then
    autoload -Uz add-zsh-hook
    add-zsh-hook preexec preexec_klipdot
    add-zsh-hook precmd precmd_klipdot
fi

# Enhanced aliases
alias cp='klipdot_cp'
alias mv='klipdot_mv'
alias scp='klipdot_scp'

klipdot_cp() {
    local result
    command cp "$@"
    result=$?
    
    for arg in "$@"; do
        if [[ -f "$arg" ]]; then
            klipdot_handle_image "$arg"
        fi
    done
    
    return $result
}

klipdot_mv() {
    local result
    command mv "$@"
    result=$?
    
    for arg in "$@"; do
        if [[ -f "$arg" ]]; then
            klipdot_handle_image "$arg"
        fi
    done
    
    return $result
}

klipdot_scp() {
    local result
    command scp "$@"
    result=$?
    
    for arg in "$@"; do
        if [[ -f "$arg" ]]; then
            klipdot_handle_image "$arg"
        fi
    done
    
    return $result
}
"#;

/// The rest of the bash hook script, after klipdot's binary.
pub const BASH_SCRIPT_BODY: &'static str = r#""

# Function to handle image files
klipdot_handle_image() {
    local file_path="$1"
    if [[ -f "$file_path" ]]; then
        local mime_type=$(file --mime-type -b "$file_path" 2>/dev/null)
        if [[ "$mime_type" =~ ^image/ ]]; then
            "$KLIPDOT_BIN" --quiet process-file "$file_path" 2>/dev/null &
            return $?
        fi
    fi
    return 1
}

# Hook into command execution
klipdot_preexec() {
    local cmd="$BASH_COMMAND"
    
    # Check for image-related commands
    if [[ "$cmd" =~ (cp|mv|scp|rsync).*\.(png|jpg|jpeg|gif|bmp|webp|svg) ]]; then
        echo "[KlipDot] Image operation detected"
    fi
    
    # Check for file arguments that might be images
    for arg in $cmd; do
        if [[ -f "$arg" ]]; then
            klipdot_handle_image "$arg"
        fi
    done
}

# Hook into prompt
klipdot_precmd() {
    # Check for new files in current directory
    for file in *.{png,jpg,jpeg,gif,bmp,webp,svg}; do
        if [[ -f "$file" ]] 2>/dev/null; then
            klipdot_handle_image "$file"
        fi
    done 2>/dev/null
}

# Set up command hooks
trap 'klipdot_preexec' DEBUG
if [[ -z "$PROMPT_COMMAND" ]]; then
    PROMPT_COMMAND="klipdot_precmd"
else
    PROMPT_COMMAND="klipdot_precmd;$PROMPT_COMMAND"
fi

# Enhanced aliases
alias cp='klipdot_cp'
alias mv='klipdot_mv'
alias scp='klipdot_scp'

klipdot_cp() {
    local result
    command cp "$@"
    result=$?
    
    for arg in "$@"; do
        if [[ -f "$arg" ]]; then
            klipdot_handle_image "$arg"
        fi
    done
    
    return $result
}

klipdot_mv() {
    local result
    command mv "$@"
    result=$?
    
    for arg in "$@"; do
        if [[ -f "$arg" ]]; then
            klipdot_handle_image "$arg"
        fi
    done
    
    return $result
}

klipdot_scp() {
    local result
    command scp "$@"
    result=$?
    
    for arg in "$@"; do
        if [[ -f "$arg" ]]; then
            klipdot_handle_image "$arg"
        fi
    done
    
    return $result
}
"#;

/// Desktop entry text before klipdot's binary.
pub const DESKTOP_HEAD: &'static str = r#"[Desktop Entry]
Name=KlipDot
Comment=Universal terminal image interceptor
Exec="#;

/// Desktop entry text after klipdot's binary.
pub const DESKTOP_TAIL: &'static str = r#" start --daemon
Icon=image-x-generic
Type=Application
Categories=Utility;System;
StartupNotify=false
NoDisplay=true
"#;

/// Systemd unit text before klipdot's binary.
pub const UNIT_HEAD: &'static str = r#"[Unit]
Description=KlipDot Universal Terminal Image Interceptor
After=graphical-session.target

[Service]
Type=simple
ExecStart="#;

/// Systemd unit text after klipdot's binary.
pub const UNIT_TAIL: &'static str = r#" start --daemon
Restart=always
RestartSec=5
Environment=DISPLAY=:0

[Install]
WantedBy=default.target
"#;

/// The comment line that precedes klipdot's `source` line.
pub const MARKER: &'static str = "# KlipDot Terminal Interceptor";

/// The zsh hook script for klipdot's directory and binary.
pub open spec fn zsh_script(dir: Seq<char>, bin: Seq<char>) -> Seq<char> {
    ZSH_SCRIPT_HEAD@ + dir + SCRIPT_BIN@ + bin + ZSH_SCRIPT_BODY@
}

/// The bash hook script for klipdot's directory and binary.
pub open spec fn bash_script(dir: Seq<char>, bin: Seq<char>) -> Seq<char> {
    BASH_SCRIPT_HEAD@ + dir + SCRIPT_BIN@ + bin + BASH_SCRIPT_BODY@
}

/// The start-up file of a shell: `.zshrc` for zsh, `.bashrc` otherwise.
pub open spec fn rc_file_name(shell: Seq<char>) -> Seq<char> {
    if shell == "zsh"@ {
        ".zshrc"@
    } else {
        ".bashrc"@
    }
}

/// The hook script file of a shell: the zsh one for zsh, the bash one
/// otherwise.
pub open spec fn hook_file_name(shell: Seq<char>) -> Seq<char> {
    if shell == "zsh"@ {
        "zsh-hooks.zsh"@
    } else {
        "bash-hooks.bash"@
    }
}

/// The line that sources a hook script.
pub open spec fn source_line_for(hook_file: Seq<char>) -> Seq<char> {
    "source \""@ + hook_file + "\""@
}

/// A start-up file's content with klipdot's `source` block appended: `None`
/// when the line is already there.
pub open spec fn with_source(content: Seq<char>, line: Seq<char>) -> Option<Seq<char>> {
    if contains(content, line) {
        None
    } else {
        Some(content + "\n"@ + MARKER@ + "\n"@ + line + "\n"@)
    }
}

/// The lines kept when klipdot's block is removed: marker lines go, and so
/// does a line mentioning klipdot right after one.
pub open spec fn kept_lines(ls: Seq<Seq<char>>, after_marker: bool) -> Seq<Seq<char>>
    decreases ls.len(),
{
    if ls.len() == 0 {
        seq![]
    } else if contains(ls[0], MARKER@) {
        kept_lines(ls.drop_first(), true)
    } else if after_marker && contains(ls[0], "klipdot"@) {
        kept_lines(ls.drop_first(), false)
    } else {
        seq![ls[0]] + kept_lines(ls.drop_first(), false)
    }
}

/// A start-up file's content with klipdot's block removed, lines re-joined
/// by newlines.
pub open spec fn without_source(content: Seq<char>) -> Seq<char> {
    joined(kept_lines(lines_of(content), false), seq!['\n'])
}

/// The last `/`-separated segment of a path (all of it without a `/`).
pub open spec fn last_segment(p: Seq<char>) -> Seq<char>
    decreases p.len(),
{
    if p.len() == 0 {
        p
    } else if p.last() == '/' {
        seq![]
    } else {
        last_segment(p.drop_last()).push(p.last())
    }
}

/// Installs klipdot's hooks for one shell.
#[derive(Debug, Clone)]
pub struct ShellInstaller {
    pub shell_type: String,
    pub home_dir: String,
    pub shell_rc_path: String,
    pub hooks_dir: String,
}

impl ShellInstaller {
    /// The installer for `shell_type` in home directory `home_dir`, with
    /// klipdot's own directory `klipdot_home` (`home_dir/.klipdot` when
    /// unknown): the start-up file is in the home directory, the hooks in
    /// klipdot's `hooks` directory.
    pub fn new(shell_type: &str, home_dir: &str, klipdot_home: Option<&str>) -> (i: Self)
        ensures
            i.shell_type@ == shell_type@,
            i.home_dir@ == home_dir@,
            i.shell_rc_path@ == join_path(home_dir@, rc_file_name(shell_type@)),
            i.hooks_dir@ == join_path(
                match klipdot_home {
                    Some(k) => k@,
                    None => join_path(home_dir@, ".klipdot"@),
                },
                HOOKS_DIR@,
            ),
    {
        let shell_rc_path = Self::get_shell_rc_path(home_dir, shell_type);
        let base = match klipdot_home {
            Some(k) => k.to_owned(),
            None => join(home_dir, ".klipdot"),
        };
        let hooks_dir = join(base.as_str(), HOOKS_DIR);
        ShellInstaller {
            shell_type: shell_type.to_owned(),
            home_dir: home_dir.to_owned(),
            shell_rc_path,
            hooks_dir,
        }
    }

    /// The shell named by the `SHELL` variable: the last segment of its
    /// path, `/bin/bash` when unset.
    pub fn shell_from_env(shell_var: Option<&str>) -> (s: String)
        ensures
            s@ == last_segment(
                match shell_var {
                    Some(v) => v@,
                    None => "/bin/bash"@,
                },
            ),
    {
        let v = match shell_var {
            Some(v) => v,
            None => "/bin/bash",
        };
        let c = chars_of(v);
        let mut start: usize = c.len();
        assert(c@.subrange(0, start as int) =~= c@);
        assert(c@.subrange(start as int, c@.len() as int) =~= Seq::<char>::empty());
        while start > 0 && c[start - 1] != '/'
            invariant
                c@ == v@,
                start <= c@.len(),
                last_segment(c@) == last_segment(c@.subrange(0, start as int)) + c@.subrange(
                    start as int,
                    c@.len() as int,
                ),
            decreases start,
        {
            assert(c@.subrange(0, start as int).drop_last() =~= c@.subrange(0, start - 1));
            assert(c@.subrange(start - 1, c@.len() as int) =~= seq![c@[start - 1]] + c@.subrange(
                start as int,
                c@.len() as int,
            ));
            assert(last_segment(c@.subrange(0, start as int)) == last_segment(c@.subrange(0, start - 1)).push(
                c@[start - 1],
            ));
            start -= 1;
        }
        let mut s = String::new();
        crate::text::push_chars(&mut s, &c, start, c.len());
        assert(last_segment(c@.subrange(0, start as int)) =~= Seq::<char>::empty());
        s
    }

    /// The start-up file of `shell_type` in `home_dir`.
    pub fn get_shell_rc_path(home_dir: &str, shell_type: &str) -> (p: String)
        ensures
            p@ == join_path(home_dir@, rc_file_name(shell_type@)),
    {
        if str_eq(shell_type, "zsh") {
            join(home_dir, ".zshrc")
        } else {
            join(home_dir, ".bashrc")
        }
    }

    /// The hook script file of this installer's shell.
    pub fn hook_file(&self) -> (p: String)
        ensures
            p@ == join_path(self.hooks_dir@, hook_file_name(self.shell_type@)),
    {
        if str_eq(self.shell_type.as_str(), "zsh") {
            join(self.hooks_dir.as_str(), "zsh-hooks.zsh")
        } else {
            join(self.hooks_dir.as_str(), "bash-hooks.bash")
        }
    }

    /// The hook script to install: the zsh script for zsh, the bash script
    /// for bash and any other shell.
    pub fn hook_content(&self, klipdot_dir: &str, klipdot_bin: &str) -> (s: String)
        ensures
            s@ == if self.shell_type@ == "zsh"@ {
                zsh_script(klipdot_dir@, klipdot_bin@)
            } else {
                bash_script(klipdot_dir@, klipdot_bin@)
            },
    {
        if str_eq(self.shell_type.as_str(), "zsh") {
            self.generate_zsh_hook_content(klipdot_dir, klipdot_bin)
        } else {
            self.generate_bash_hook_content(klipdot_dir, klipdot_bin)
        }
    }

    /// The zsh hook script for klipdot's directory and binary.
    pub fn generate_zsh_hook_content(&self, klipdot_dir: &str, klipdot_bin: &str) -> (s: String)
        ensures
            s@ == zsh_script(klipdot_dir@, klipdot_bin@),
    {
        let mut s = String::new();
        s.push_str(ZSH_SCRIPT_HEAD);
        s.push_str(klipdot_dir);
        s.push_str(SCRIPT_BIN);
        s.push_str(klipdot_bin);
        s.push_str(ZSH_SCRIPT_BODY);
        s
    }

    /// The bash hook script for klipdot's directory and binary.
    pub fn generate_bash_hook_content(&self, klipdot_dir: &str, klipdot_bin: &str) -> (s: String)
        ensures
            s@ == bash_script(klipdot_dir@, klipdot_bin@),
    {
        let mut s = String::new();
        s.push_str(BASH_SCRIPT_HEAD);
        s.push_str(klipdot_dir);
        s.push_str(SCRIPT_BIN);
        s.push_str(klipdot_bin);
        s.push_str(BASH_SCRIPT_BODY);
        s
    }

    /// The line that sources this installer's hook script.
    pub fn source_line(&self) -> (s: String)
        ensures
            s@ == source_line_for(join_path(self.hooks_dir@, hook_file_name(self.shell_type@))),
    {
        let mut s = String::new();
        s.push_str("source \"");
        s.push_str(self.hook_file().as_str());
        s.push_str("\"");
        s
    }

    /// The start-up file's content with the `source` block appended, or
    /// `None` when the line is already there.
    pub fn add_source_line(&self, content: &str) -> (r: Option<String>)
        ensures
            r.deep_view() == with_source(
                content@,
                source_line_for(join_path(self.hooks_dir@, hook_file_name(self.shell_type@))),
            ),
    {
        let line = self.source_line();
        if str_contains(content, line.as_str()) {
            return None;
        }
        let mut s = String::new();
        s.push_str(content);
        s.push('\n');
        s.push_str(MARKER);
        s.push('\n');
        s.push_str(line.as_str());
        s.push('\n');
        proof {
            reveal_strlit("\n");
        }
        Some(s)
    }

    /// The start-up file's content with klipdot's block removed.
    pub fn remove_source_line(&self, content: &str) -> (r: String)
        ensures
            r@ == without_source(content@),
    {
        let ls = lines(content);
        let mut kept: Vec<String> = Vec::new();
        let mut after_marker = false;
        let mut i: usize = 0;
        assert(ls.deep_view().skip(0) =~= ls.deep_view());
        while i < ls.len()
            invariant
                i <= ls@.len(),
                ls.deep_view() == lines_of(content@),
                kept.deep_view() + kept_lines(ls.deep_view().skip(i as int), after_marker) == kept_lines(
                    ls.deep_view(),
                    false,
                ),
            decreases ls@.len() - i,
        {
            let ghost rest = ls.deep_view().skip(i as int);
            assert(rest[0] == ls.deep_view()[i as int]);
            assert(rest.drop_first() =~= ls.deep_view().skip(i + 1));
            let line = ls[i].as_str();
            if str_contains(line, MARKER) {
                after_marker = true;
            } else if after_marker && str_contains(line, "klipdot") {
                after_marker = false;
            } else {
                let ghost before = kept.deep_view();
                kept.push(ls[i].clone());
                assert(kept.deep_view() =~= before.push(rest[0]));
                assert(kept.deep_view() + kept_lines(ls.deep_view().skip(i + 1), false) =~= before + (seq![
                    rest[0],
                ] + kept_lines(rest.drop_first(), false)));
                after_marker = false;
            }
            i += 1;
        }
        assert(ls.deep_view().skip(i as int) =~= Seq::<Seq<char>>::empty());
        assert(kept.deep_view() =~= kept.deep_view() + kept_lines(ls.deep_view().skip(i as int), after_marker));
        join_strings(&kept, '\n')
    }

    /// The desktop entry that starts klipdot's daemon with the session.
    pub fn desktop_entry(klipdot_bin: &str) -> (s: String)
        ensures
            s@ == DESKTOP_HEAD@ + klipdot_bin@ + DESKTOP_TAIL@,
    {
        let mut s = String::new();
        s.push_str(DESKTOP_HEAD);
        s.push_str(klipdot_bin);
        s.push_str(DESKTOP_TAIL);
        s
    }

    /// The systemd user unit that runs klipdot's daemon.
    pub fn systemd_service(klipdot_bin: &str) -> (s: String)
        ensures
            s@ == UNIT_HEAD@ + klipdot_bin@ + UNIT_TAIL@,
    {
        let mut s = String::new();
        s.push_str(UNIT_HEAD);
        s.push_str(klipdot_bin);
        s.push_str(UNIT_TAIL);
        s
    }
}

proof fn lemma_kept_lines_drop_marker(ls: Seq<Seq<char>>, after_marker: bool)
    ensures
        forall|i: int|
            0 <= i < kept_lines(ls, after_marker).len() ==> !contains(
                #[trigger] kept_lines(ls, after_marker)[i],
                MARKER@,
            ),
    decreases ls.len(),
{
    if ls.len() > 0 {
        lemma_kept_lines_drop_marker(ls.drop_first(), true);
        lemma_kept_lines_drop_marker(ls.drop_first(), false);
        let k = kept_lines(ls, after_marker);
        if contains(ls[0], MARKER@) {
            assert(k == kept_lines(ls.drop_first(), true));
        } else if after_marker && contains(ls[0], "klipdot"@) {
            assert(k == kept_lines(ls.drop_first(), false));
        } else {
            assert(k == seq![ls[0]] + kept_lines(ls.drop_first(), false));
            assert forall|i: int| 0 <= i < k.len() implies !contains(#[trigger] k[i], MARKER@) by {
                if i > 0 {
                    assert(k[i] == kept_lines(ls.drop_first(), false)[i - 1]);
                }
            }
        }
    }
}

proof fn lemma_joined_avoids(ls: Seq<Seq<char>>, m: Seq<char>)
    requires
        m.len() > 0,
        !m.contains('\n'),
        forall|i: int| 0 <= i < ls.len() ==> !contains(#[trigger] ls[i], m),
    ensures
        !contains(joined(ls, seq!['\n']), m),
    decreases ls.len(),
{
    if ls.len() == 1 {
        assert(!contains(ls[0], m));
    } else if ls.len() > 1 {
        let init = ls.drop_last();
        assert forall|i: int| 0 <= i < init.len() implies !contains(#[trigger] init[i], m) by {
            assert(init[i] == ls[i]);
        }
        lemma_joined_avoids(init, m);
        let a = joined(init, seq!['\n']);
        let b = ls.last();
        assert(!contains(b, m)) by {
            assert(b == ls[ls.len() - 1]);
        }
        let j = a + seq!['\n'] + b;
        assert(joined(ls, seq!['\n']) == j);
        if contains(j, m) {
            let p = choose|p: int| occurs_at(j, m, p);
            if p + m.len() <= a.len() {
                assert(a.subrange(p, p + m.len()) =~= j.subrange(p, p + m.len()));
                assert(occurs_at(a, m, p));
            } else if p > a.len() {
                let q = p - a.len() - 1;
                assert(b.subrange(q, q + m.len()) =~= j.subrange(p, p + m.len()));
                assert(occurs_at(b, m, q));
            } else {
                let k = a.len() - p;
                assert(j[a.len() as int] == '\n');
                assert(j.subrange(p, p + m.len())[k] == j[a.len() as int]);
                assert(m[k] == '\n');
                assert(m.contains('\n'));
            }
        }
    } else {
        assert(joined(ls, seq!['\n']).len() == 0);
        if contains(joined(ls, seq!['\n']), m) {
            let p = choose|p: int| occurs_at(joined(ls, seq!['\n']), m, p);
        }
    }
}

/// Removing klipdot's block leaves no marker line behind, whatever the
/// start-up file held; adding the block puts the marker and the `source`
/// line in, so adding it again changes nothing.
pub proof fn remove_undoes_add(content: Seq<char>, line: Seq<char>)
    ensures
        !contains(without_source(content), MARKER@),
        with_source(content, line) matches Some(c) ==> contains(c, MARKER@) && contains(c, line),
        with_source(content, line) matches Some(c) ==> with_source(c, line) is None,
{
    reveal_strlit("# KlipDot Terminal Interceptor");
    lemma_kept_lines_drop_marker(lines_of(content), false);
    assert(!MARKER@.contains('\n')) by {
        if MARKER@.contains('\n') {
            let k = choose|k: int| 0 <= k < MARKER@.len() && MARKER@[k] == '\n';
        }
    }
    lemma_joined_avoids(kept_lines(lines_of(content), false), MARKER@);
    if let Some(c) = with_source(content, line) {
        reveal_strlit("\n");
        let pre = content + "\n"@;
        assert(c == pre + MARKER@ + "\n"@ + line + "\n"@);
        assert(c.subrange(pre.len() as int, (pre.len() + MARKER@.len()) as int) =~= MARKER@);
        assert(occurs_at(c, MARKER@, pre.len() as int));
        let q: int = (pre.len() + MARKER@.len() + 1) as int;
        assert(c.subrange(q, q + line.len()) =~= line);
        assert(occurs_at(c, line, q));
    }
}

} // verus!
