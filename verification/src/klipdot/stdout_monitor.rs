//! Watching a command's output for images: which TUI applications are
//! known and how each is previewed, which paths in a line name images, and
//! which word the cursor is on. Running the command, reading its output and
//! checking files stand outside.

use vstd::prelude::*;
use vstd::string::StringSliceAdditionalSpecFns;

use crate::klipdot::config::Config;
use crate::klipdot::error::Error;
use crate::klipdot::paths::{file_name, file_name_of, image_path, is_image_file};
use crate::klipdot::patterns::{
    compile, group_texts, regex_compiles, regex_group_texts, regex_replaced, replace_all, Pattern,
};
use crate::text::{chars_of, is_white_space, push_chars, str_eq, white_space};

verus! {

/// How a TUI application's images are previewed.
#[derive(Debug, Clone, Copy, PartialEq, Eq, Structural)]
pub enum TuiPreviewMethod {
    /// Inline, inside the TUI.
    Inline,
    /// In a separate pane or window.
    SeparatePane,
    /// As a floating overlay.
    Overlay,
    /// In an external viewer.
    External,
    /// Not at all (detection is only logged).
    NoPreview,
}

/// What klipdot knows of a TUI application.
#[derive(Debug, Clone)]
pub struct TuiConfig {
    pub name: String,
    pub supports_images: bool,
    pub preview_method: TuiPreviewMethod,
    pub escape_sequences: Vec<String>,
}

/// Where a detected image came from.
#[derive(Debug, Clone, Copy, PartialEq, Eq, Structural)]
pub enum ImageSource {
    FilePath,
    Url,
    Base64Data,
    StdinPipe,
}

/// An image found in a command's output.
#[derive(Debug, Clone)]
pub struct DetectedImage {
    pub path: String,
    pub source: ImageSource,
    /// The output line it was found in.
    pub context: String,
    pub line_number: usize,
}

impl DetectedImage {
    /// An image file found at `path` in output line `line_number`.
    pub fn file_path(path: &str, line: &str, line_number: usize) -> (d: Self)
        ensures
            d.path@ == path@,
            d.source == ImageSource::FilePath,
            d.context@ == line@,
            d.line_number == line_number,
    {
        DetectedImage { path: path.to_owned(), source: ImageSource::FilePath, context: line.to_owned(), line_number }
    }
}

/// A TUI table entry as contracts see it: binary name, display name,
/// whether it shows images, how its images are previewed, and its escape
/// sequences.
pub type TuiEntry = (Seq<char>, Seq<char>, bool, TuiPreviewMethod, Seq<Seq<char>>);

/// The known TUI applications: binary name, display name, whether it shows
/// images, how its images are previewed, and no escape sequences.
pub open spec fn tui_table() -> Seq<TuiEntry> {
    seq![
        ("vim"@, "Vim"@, false, TuiPreviewMethod::External, seq![]),
        ("nvim"@, "Neovim"@, true, TuiPreviewMethod::Overlay, seq![]),
        ("ranger"@, "Ranger"@, true, TuiPreviewMethod::SeparatePane, seq![]),
        ("lf"@, "LF"@, true, TuiPreviewMethod::SeparatePane, seq![]),
        ("nnn"@, "NNN"@, true, TuiPreviewMethod::External, seq![]),
        ("w3m"@, "w3m"@, true, TuiPreviewMethod::Inline, seq![]),
        ("lynx"@, "Lynx"@, false, TuiPreviewMethod::External, seq![]),
        ("tmux"@, "Tmux"@, true, TuiPreviewMethod::SeparatePane, seq![]),
        ("screen"@, "Screen"@, false, TuiPreviewMethod::External, seq![]),
        ("tig"@, "Tig"@, false, TuiPreviewMethod::External, seq![]),
        ("gitui"@, "GitUI"@, false, TuiPreviewMethod::External, seq![]),
        ("htop"@, "htop"@, false, TuiPreviewMethod::NoPreview, seq![]),
        ("btop"@, "btop"@, false, TuiPreviewMethod::NoPreview, seq![]),
    ]
}

/// The view of a TUI table entry.
pub open spec fn entry_view(e: (String, TuiConfig)) -> TuiEntry {
    (e.0@, e.1.name@, e.1.supports_images, e.1.preview_method, e.1.escape_sequences.deep_view())
}

/// The view of a TUI table.
pub open spec fn table_view(apps: Seq<(String, TuiConfig)>) -> Seq<TuiEntry> {
    Seq::new(apps.len(), |i: int| entry_view(apps[i]))
}

/// Pattern of an image file path in output.
pub const IMAGE_PATH_PATTERN: &'static str = r#"(?:^|\s|["'])((?:[~/.]|[A-Za-z]:|\\\\)[^"'\s]*\.(?:png|jpe?g|gif|bmp|webp|svg|tiff?|ico))(?:["']|\s|$)"#;

/// Pattern of an image URL in output.
pub const IMAGE_URL_PATTERN: &'static str = r#"https?://[^\s"']+\.(?:png|jpe?g|gif|bmp|webp|svg|tiff?|ico)(?:\?[^\s"']*)?(?:["']|\s|$)"#;

/// Pattern of inline base64 image data in output.
pub const BASE64_IMAGE_PATTERN: &'static str = r#"data:image/(?:png|jpe?g|gif|bmp|webp|svg\+xml);base64,([A-Za-z0-9+/=]+)"#;

/// Pattern of the ANSI escape sequences cleaned from TUI output.
pub const ESCAPE_SEQUENCE_PATTERN: &'static str = r#"\x1b\[[0-9;]*[mK]|\x1b\].*?\x07|\x1b\[.*?[HJf]"#;

/// Whether no two entries of a TUI table share a binary name.
pub open spec fn names_distinct(t: Seq<TuiEntry>) -> bool {
    forall|i: int, j: int| 0 <= i < j < t.len() ==> t[i].0 != t[j].0
}

/// No binary name occurs twice among the known TUI applications.
pub proof fn tui_table_names_distinct()
    ensures
        names_distinct(tui_table()),
{
    reveal_strlit("vim");
    reveal_strlit("nvim");
    reveal_strlit("ranger");
    reveal_strlit("lf");
    reveal_strlit("nnn");
    reveal_strlit("w3m");
    reveal_strlit("lynx");
    reveal_strlit("tmux");
    reveal_strlit("screen");
    reveal_strlit("tig");
    reveal_strlit("gitui");
    reveal_strlit("htop");
    reveal_strlit("btop");
    let t = tui_table();
    assert forall|i: int, j: int| 0 <= i < j < t.len() implies t[i].0 != t[j].0 by {
        assert(t[i].0.len() != t[j].0.len() || t[i].0[0] != t[j].0[0]);
    }
}

/// Index of the entry for binary `name`, if any.
pub open spec fn table_index(t: Seq<TuiEntry>, name: Seq<char>) -> Option<int>
    decreases t.len(),
{
    if t.len() == 0 {
        None
    } else if t[0].0 == name {
        Some(0)
    } else {
        match table_index(t.drop_first(), name) {
            Some(i) => Some(i + 1),
            None => None,
        }
    }
}

/// A path with a leading `~` replaced by the home directory (when known).
pub open spec fn expanded(path: Seq<char>, home: Option<Seq<char>>) -> Seq<char> {
    if path.len() > 0 && path[0] == '~' && home is Some {
        home->0 + path.drop_first()
    } else {
        path
    }
}

/// The image paths in an output line: the path group of each match of the
/// image path pattern, expanded, that names an image file.
pub open spec fn path_candidates(line: Seq<char>, home: Option<Seq<char>>) -> Seq<Seq<char>> {
    expanded_images(regex_group_texts(IMAGE_PATH_PATTERN@, line, 1), home)
}

/// The expanded image paths among the texts `gs`.
pub open spec fn expanded_images(gs: Seq<Option<Seq<char>>>, home: Option<Seq<char>>) -> Seq<Seq<char>>
    decreases gs.len(),
{
    if gs.len() == 0 {
        seq![]
    } else {
        let rest = expanded_images(gs.drop_last(), home);
        match gs.last() {
            Some(g) => if image_path(expanded(g, home)) {
                rest.push(expanded(g, home))
            } else {
                rest
            },
            None => rest,
        }
    }
}

/// Whether a character ends the word the cursor is on.
pub open spec fn word_break(c: char) -> bool {
    is_white_space(c) || c == '"' || c == '\''
}

/// Index just after the last word break of `s`, or 0.
pub open spec fn after_last_break(s: Seq<char>) -> int
    decreases s.len(),
{
    if s.len() == 0 {
        0
    } else if word_break(s.last()) {
        s.len() as int
    } else {
        after_last_break(s.drop_last())
    }
}

/// Index of the first word break of `s`, or its length.
pub open spec fn first_break(s: Seq<char>) -> int
    decreases s.len(),
{
    if s.len() == 0 {
        0
    } else if word_break(s[0]) {
        0
    } else {
        1 + first_break(s.drop_first())
    }
}

/// The word around byte offset `pos` of `text`: the run of non-break
/// characters ending at `pos` followed by the one starting there.
pub open spec fn word_at(text: Seq<char>, pos: int) -> Seq<char> {
    let bytes = vstd::utf8::encode_utf8(text);
    let before = vstd::utf8::decode_utf8(bytes.take(pos));
    let after = vstd::utf8::decode_utf8(bytes.skip(pos));
    before.skip(after_last_break(before)) + after.take(first_break(after))
}

fn tui_entry(key: &str, name: &str, supports_images: bool, preview_method: TuiPreviewMethod) -> (e: (
    String,
    TuiConfig,
))
    ensures
        entry_view(e) == (key@, name@, supports_images, preview_method, Seq::<Seq<char>>::empty()),
{
    let escape_sequences: Vec<String> = Vec::new();
    assert(escape_sequences.deep_view() =~= Seq::<Seq<char>>::empty());
    (key.to_owned(), TuiConfig { name: name.to_owned(), supports_images, preview_method, escape_sequences })
}

fn expand(path: &str, home: Option<&str>) -> (r: String)
    ensures
        r@ == expanded(
            path@,
            match home {
                Some(h) => Some(h@),
                None => None,
            },
        ),
{
    let c = chars_of(path);
    if c.len() > 0 && c[0] == '~' {
        if let Some(h) = home {
            let mut r = String::new();
            r.push_str(h);
            push_chars(&mut r, &c, 1, c.len());
            assert(c@.subrange(1, c@.len() as int) =~= path@.drop_first());
            return r;
        }
    }
    path.to_owned()
}

/// Watches a command's output for images.
pub struct StdoutMonitor {
    pub config: Config,
    pub image_path_regex: Pattern,
    pub url_regex: Pattern,
    pub base64_regex: Pattern,
    pub escape_sequence_regex: Pattern,
    /// `(binary name, configuration)` pairs; a name occurs at most once.
    pub tui_apps: Vec<(String, TuiConfig)>,
}

impl StdoutMonitor {
    /// A monitor with its patterns compiled and the known TUI applications;
    /// a pattern that fails to compile is a `Config` error.
    pub fn new(config: Config) -> (r: Result<Self, Error>)
        ensures
            r is Ok <==> (regex_compiles(IMAGE_PATH_PATTERN@) && regex_compiles(IMAGE_URL_PATTERN@)
                && regex_compiles(BASE64_IMAGE_PATTERN@) && regex_compiles(ESCAPE_SEQUENCE_PATTERN@)),
            r matches Ok(m) ==> {
                &&& m.config == config
                &&& m.image_path_regex.text() == IMAGE_PATH_PATTERN@
                &&& m.url_regex.text() == IMAGE_URL_PATTERN@
                &&& m.base64_regex.text() == BASE64_IMAGE_PATTERN@
                &&& m.escape_sequence_regex.text() == ESCAPE_SEQUENCE_PATTERN@
                &&& table_view(m.tui_apps@) == tui_table()
                &&& names_distinct(table_view(m.tui_apps@))
            },
            r matches Err(e) ==> e is Config,
    {
        let image_path_regex = match compile(IMAGE_PATH_PATTERN) {
            Ok(p) => p,
            Err(e) => {
                return Err(config_error("Failed to compile image path regex: ", e));
            },
        };
        let url_regex = match compile(IMAGE_URL_PATTERN) {
            Ok(p) => p,
            Err(e) => {
                return Err(config_error("Failed to compile URL regex: ", e));
            },
        };
        let base64_regex = match compile(BASE64_IMAGE_PATTERN) {
            Ok(p) => p,
            Err(e) => {
                return Err(config_error("Failed to compile base64 regex: ", e));
            },
        };
        let escape_sequence_regex = match compile(ESCAPE_SEQUENCE_PATTERN) {
            Ok(p) => p,
            Err(e) => {
                return Err(config_error("Failed to compile escape sequence regex: ", e));
            },
        };
        let e0 = tui_entry("vim", "Vim", false, TuiPreviewMethod::External);
        let e1 = tui_entry("nvim", "Neovim", true, TuiPreviewMethod::Overlay);
        let e2 = tui_entry("ranger", "Ranger", true, TuiPreviewMethod::SeparatePane);
        let e3 = tui_entry("lf", "LF", true, TuiPreviewMethod::SeparatePane);
        let e4 = tui_entry("nnn", "NNN", true, TuiPreviewMethod::External);
        let e5 = tui_entry("w3m", "w3m", true, TuiPreviewMethod::Inline);
        let e6 = tui_entry("lynx", "Lynx", false, TuiPreviewMethod::External);
        let e7 = tui_entry("tmux", "Tmux", true, TuiPreviewMethod::SeparatePane);
        let e8 = tui_entry("screen", "Screen", false, TuiPreviewMethod::External);
        let e9 = tui_entry("tig", "Tig", false, TuiPreviewMethod::External);
        let e10 = tui_entry("gitui", "GitUI", false, TuiPreviewMethod::External);
        let e11 = tui_entry("htop", "htop", false, TuiPreviewMethod::NoPreview);
        let e12 = tui_entry("btop", "btop", false, TuiPreviewMethod::NoPreview);
        let tui_apps: Vec<(String, TuiConfig)> = vec![e0, e1, e2, e3, e4, e5, e6, e7, e8, e9, e10, e11, e12];
        assert(table_view(tui_apps@) =~= tui_table());
        proof {
            tui_table_names_distinct();
        }
        Ok(
            StdoutMonitor {
                config,
                image_path_regex,
                url_regex,
                base64_regex,
                escape_sequence_regex,
                tui_apps,
            },
        )
    }

    /// The configuration of the TUI application a command runs, found by
    /// the command's file name. No name occurs twice in the table, as in the
    /// one `new` builds.
    pub fn detect_tui_app(&self, command: &str) -> (r: Option<TuiConfig>)
        requires
            names_distinct(table_view(self.tui_apps@)),
        ensures
            r is Some <==> (file_name_of(command@) matches Some(n) && table_index(table_view(self.tui_apps@), n) is Some),
            r matches Some(c) ==> (file_name_of(command@) matches Some(n) && entry_view(
                (self.tui_apps@[table_index(table_view(self.tui_apps@), n)->0].0, c),
            ) == table_view(self.tui_apps@)[table_index(table_view(self.tui_apps@), n)->0]),
    {
        let name = match file_name(command) {
            Some(n) => n,
            None => {
                return None;
            },
        };
        let mut i: usize = 0;
        let ghost t = table_view(self.tui_apps@);
        assert(t.skip(0) =~= t);
        while i < self.tui_apps.len()
            invariant
                i <= self.tui_apps@.len(),
                t == table_view(self.tui_apps@),
                name@ == file_name_of(command@)->0,
                file_name_of(command@) is Some,
                table_index(t, name@) == match table_index(t.skip(i as int), name@) {
                    Some(k) => Some(k + i),
                    None => None,
                },
            decreases self.tui_apps@.len() - i,
        {
            assert(t.skip(i as int)[0] == t[i as int]);
            assert(t.skip(i as int).drop_first() =~= t.skip(i + 1));
            if str_eq(self.tui_apps[i].0.as_str(), name.as_str()) {
                let c = &self.tui_apps[i].1;
                let copy = TuiConfig {
                    name: c.name.clone(),
                    supports_images: c.supports_images,
                    preview_method: c.preview_method,
                    escape_sequences: copy_strings(&c.escape_sequences),
                };
                return Some(copy);
            }
            i += 1;
        }
        assert(t.skip(i as int) =~= Seq::<TuiEntry>::empty());
        None
    }

    /// An output line as the detector sees it: Vim, Neovim and the file
    /// managers (Ranger, LF, NNN) keep their escape sequences, other TUIs
    /// have them removed.
    pub fn process_tui_line(&self, line: &str, tui_config: &TuiConfig) -> (r: String)
        ensures
            r@ == if tui_config.name@ == "Vim"@ || tui_config.name@ == "Neovim"@ || tui_config.name@ == "Ranger"@
                || tui_config.name@ == "LF"@ || tui_config.name@ == "NNN"@ {
                line@
            } else {
                regex_replaced(self.escape_sequence_regex.text(), line@, ""@)
            },
    {
        let n = tui_config.name.as_str();
        if str_eq(n, "Vim") || str_eq(n, "Neovim") || str_eq(n, "Ranger") || str_eq(n, "LF") || str_eq(n, "NNN") {
            line.to_owned()
        } else {
            replace_all(&self.escape_sequence_regex, line, "")
        }
    }

    /// The image files an output line names (see [`path_candidates`]), with
    /// `~` expanded to `home`; which of them exist is for the caller to
    /// check. Every TUI's detection comes down to these paths.
    pub fn image_path_candidates(&self, line: &str, home: Option<&str>) -> (r: Vec<String>)
        requires
            self.image_path_regex.text() == IMAGE_PATH_PATTERN@,
        ensures
            r.deep_view() == path_candidates(
                line@,
                match home {
                    Some(h) => Some(h@),
                    None => None,
                },
            ),
    {
        let gs = group_texts(&self.image_path_regex, line, 1);
        let ghost h = match home {
            Some(h) => Some(h@),
            None => None,
        };
        let mut r: Vec<String> = Vec::new();
        let mut i: usize = 0;
        while i < gs.len()
            invariant
                i <= gs@.len(),
                gs.deep_view() == regex_group_texts(IMAGE_PATH_PATTERN@, line@, 1),
                h == match home {
                    Some(h) => Some(h@),
                    None => None,
                },
                r.deep_view() == expanded_images(gs.deep_view().take(i as int), h),
            decreases gs@.len() - i,
        {
            assert(gs.deep_view().take(i + 1).drop_last() =~= gs.deep_view().take(i as int));
            assert(gs.deep_view().take(i + 1).last() == gs.deep_view()[i as int]);
            match &gs[i] {
                Some(g) => {
                    let p = expand(g.as_str(), home);
                    if is_image_file(p.as_str()) {
                        let ghost before = r.deep_view();
                        r.push(p);
                        assert(r.deep_view() =~= before.push(expanded(g@, h)));
                    }
                },
                None => {},
            }
            i += 1;
        }
        assert(gs.deep_view().take(i as int) =~= gs.deep_view());
        r
    }

    /// `~` expanded to the home directory.
    pub fn expand_path(&self, path: &str, home: Option<&str>) -> (r: String)
        ensures
            r@ == expanded(
                path@,
                match home {
                    Some(h) => Some(h@),
                    None => None,
                },
            ),
    {
        expand(path, home)
    }

    /// Whether a path names an image file by its extension.
    pub fn is_image_file(&self, path: &str) -> (r: bool)
        ensures
            r == image_path(path@),
    {
        is_image_file(path)
    }

    /// A shell command that runs `original_command` with its output piped
    /// through klipdot's monitor.
    pub fn create_monitoring_wrapper(&self, original_command: &str) -> (r: String)
        ensures
            r@ == "("@ + original_command@ + ") 2>&1 | klipdot monitor-output"@,
    {
        let mut r = String::new();
        r.push_str("(");
        r.push_str(original_command);
        r.push_str(") 2>&1 | klipdot monitor-output");
        r
    }
}

/// How an image found in a TUI application's output is shown.
#[derive(Debug, Clone, Copy, PartialEq, Eq, Structural)]
pub enum TuiPreviewAction {
    /// A preview at most `width` columns by `height` rows.
    Preview { width: u32, height: u32 },
    /// A one-line summary of the image.
    CompactInfo,
    /// A note that an image was found.
    Announce,
    /// A note that an image was found, for an external viewer.
    AnnounceExternal,
    /// Nothing on screen; the detection is only logged.
    LogOnly,
}

/// What a TUI's preview method asks for: inline TUIs that show images get a
/// 60x30 preview and the others a summary; overlays an 80x40 preview;
/// separate panes and external viewers a note; no preview only a log entry.
pub open spec fn tui_action(method: TuiPreviewMethod, supports_images: bool) -> TuiPreviewAction {
    match method {
        TuiPreviewMethod::Inline => if supports_images {
            TuiPreviewAction::Preview { width: 60, height: 30 }
        } else {
            TuiPreviewAction::CompactInfo
        },
        TuiPreviewMethod::SeparatePane => TuiPreviewAction::Announce,
        TuiPreviewMethod::Overlay => TuiPreviewAction::Preview { width: 80, height: 40 },
        TuiPreviewMethod::External => TuiPreviewAction::AnnounceExternal,
        TuiPreviewMethod::NoPreview => TuiPreviewAction::LogOnly,
    }
}

impl StdoutMonitor {
    /// Checks the command to monitor: an empty command is an `InvalidInput`
    /// error.
    pub fn check_command(command_args: &[String]) -> (r: Result<(), Error>)
        ensures
            r is Ok <==> command_args@.len() > 0,
            r matches Err(e) ==> e matches Error::InvalidInput(m) && m@ == "No command provided"@,
    {
        if command_args.len() == 0 {
            return Err(Error::InvalidInput("No command provided".to_owned()));
        }
        Ok(())
    }

    /// How an image detected in the output of the TUI `tui_config` is shown
    /// (see [`tui_action`]).
    pub fn tui_preview_action(tui_config: &TuiConfig) -> (a: TuiPreviewAction)
        ensures
            a == tui_action(tui_config.preview_method, tui_config.supports_images),
    {
        match tui_config.preview_method {
            TuiPreviewMethod::Inline => if tui_config.supports_images {
                TuiPreviewAction::Preview { width: 60, height: 30 }
            } else {
                TuiPreviewAction::CompactInfo
            },
            TuiPreviewMethod::SeparatePane => TuiPreviewAction::Announce,
            TuiPreviewMethod::Overlay => TuiPreviewAction::Preview { width: 80, height: 40 },
            TuiPreviewMethod::External => TuiPreviewAction::AnnounceExternal,
            TuiPreviewMethod::NoPreview => TuiPreviewAction::LogOnly,
        }
    }
}

fn copy_strings(v: &Vec<String>) -> (r: Vec<String>)
    ensures
        r.deep_view() == v.deep_view(),
{
    let mut r: Vec<String> = Vec::new();
    let mut i: usize = 0;
    while i < v.len()
        invariant
            i <= v@.len(),
            r.deep_view() =~= v.deep_view().take(i as int),
        decreases v@.len() - i,
    {
        let item = v[i].clone();
        let ghost before = r.deep_view();
        r.push(item);
        assert(r.deep_view() =~= before.push(v.deep_view()[i as int]));
        assert(v.deep_view().take(i + 1) =~= v.deep_view().take(i as int).push(v.deep_view()[i as int]));
        i += 1;
    }
    assert(v.deep_view().take(i as int) =~= v.deep_view());
    r
}

fn config_error(what: &str, detail: String) -> (e: Error)
    ensures
        e is Config,
{
    let mut m = String::new();
    m.push_str(what);
    m.push_str(detail.as_str());
    Error::Config(m)
}

fn is_break(c: char) -> (r: bool)
    ensures
        r == word_break(c),
{
    white_space(c) || c == '"' || c == '\''
}

/// The live preview's view of what is under the cursor, and what it shows.
pub struct LivePreviewSystem {
    pub config: Config,
    /// The image being previewed, if any.
    pub current_preview: Option<String>,
}

/// What the live preview does after the cursor moves.
#[derive(Debug, Clone)]
pub enum PreviewChange {
    /// Show a preview of the image at this path.
    Show(String),
    /// Hide the preview.
    Hide,
    /// Nothing changes.
    Keep,
}

impl LivePreviewSystem {
    /// A live preview on `config`, showing nothing.
    pub fn new(config: Config) -> (s: Self)
        ensures
            s.config == config,
            s.current_preview is None,
    {
        LivePreviewSystem { config, current_preview: None }
    }

    /// The image path under the cursor at byte offset `cursor_position` (at
    /// most the text's length): the word around it, `~` expanded, when it
    /// is non-empty and names an image file. Whether the file exists is for
    /// the caller to check.
    pub fn extract_image_path_at_cursor(&self, text: &str, cursor_position: usize, home: Option<&str>) -> (r:
        Option<String>)
        requires
            vstd::utf8::encode_utf8(text@).len() <= usize::MAX,
            vstd::utf8::is_char_boundary(
                vstd::utf8::encode_utf8(text@),
                if cursor_position < vstd::utf8::encode_utf8(text@).len() {
                    cursor_position as int
                } else {
                    vstd::utf8::encode_utf8(text@).len() as int
                },
            ),
        ensures
            ({
                let bytes = vstd::utf8::encode_utf8(text@);
                let pos = if cursor_position < bytes.len() {
                    cursor_position as int
                } else {
                    bytes.len() as int
                };
                let w = word_at(text@, pos);
                let h = match home {
                    Some(h) => Some(h@),
                    None => None,
                };
                &&& r is Some <==> (w.len() > 0 && image_path(expanded(w, h)))
                &&& r matches Some(p) ==> p@ == expanded(w, h)
            }),
    {
        let n = text.len();
        let pos = if cursor_position < n {
            cursor_position
        } else {
            n
        };
        let ghost bytes = vstd::utf8::encode_utf8(text@);
        assert(text.spec_bytes() == bytes);
        let (before, after) = text.split_at(pos);
        proof {
            vstd::utf8::encode_utf8_decode_utf8(before@);
            vstd::utf8::encode_utf8_decode_utf8(after@);
            assert(before.spec_bytes() == vstd::utf8::encode_utf8(before@));
            assert(after.spec_bytes() == vstd::utf8::encode_utf8(after@));
            assert(bytes.take(pos as int) =~= before.spec_bytes());
            assert(bytes.skip(pos as int) =~= after.spec_bytes());
            assert(vstd::utf8::decode_utf8(bytes.take(pos as int)) == before@);
            assert(vstd::utf8::decode_utf8(bytes.skip(pos as int)) == after@);
        }
        let b = chars_of(before);
        let a = chars_of(after);
        let mut start: usize = b.len();
        assert(b@.take(start as int) =~= b@);
        while start > 0 && !is_break(b[start - 1])
            invariant
                b@ == before@,
                start <= b@.len(),
                after_last_break(b@) == after_last_break(b@.take(start as int)),
            decreases start,
        {
            assert(b@.take(start as int).drop_last() =~= b@.take(start - 1));
            start -= 1;
        }
        if start > 0 {
            assert(after_last_break(b@.take(start as int)) == start);
        }
        let mut end: usize = 0;
        assert(a@.skip(0) =~= a@);
        while end < a.len() && !is_break(a[end])
            invariant
                a@ == after@,
                end <= a@.len(),
                first_break(a@) == end + first_break(a@.skip(end as int)),
            decreases a@.len() - end,
        {
            assert(a@.skip(end as int).drop_first() =~= a@.skip(end + 1));
            end += 1;
        }
        if end < a.len() {
            assert(a@.skip(end as int)[0] == a@[end as int]);
        } else {
            assert(a@.skip(end as int).len() == 0);
        }
        assert(first_break(a@) == end);
        assert(after_last_break(b@) == start);
        let mut word = String::new();
        push_chars(&mut word, &b, start, b.len());
        push_chars(&mut word, &a, 0, end);
        assert(word@ =~= b@.skip(start as int) + a@.take(end as int));
        if word.as_str().is_empty() {
            return None;
        }
        let p = expand(word.as_str(), home);
        if is_image_file(p.as_str()) {
            Some(p)
        } else {
            None
        }
    }

    /// What the preview does when the cursor is over `detected` (the image
    /// path found there, if any): show a new image, hide when nothing is
    /// under the cursor any more, or keep what it shows; and it remembers
    /// what it now shows.
    pub fn update(&mut self, detected: Option<String>) -> (c: PreviewChange)
        ensures
            match detected {
                Some(p) => if old(self).current_preview.deep_view() != Some(p@) {
                    c matches PreviewChange::Show(q) && q@ == p@ && final(self).current_preview.deep_view() == Some(p@)
                } else {
                    c is Keep && final(self).current_preview.deep_view() == old(self).current_preview.deep_view()
                },
                None => if old(self).current_preview is Some {
                    c is Hide && final(self).current_preview is None
                } else {
                    c is Keep && final(self).current_preview is None
                },
            },
    {
        match detected {
            Some(p) => {
                let same = match &self.current_preview {
                    Some(cur) => str_eq(cur.as_str(), p.as_str()),
                    None => false,
                };
                if same {
                    PreviewChange::Keep
                } else {
                    self.current_preview = Some(p.clone());
                    PreviewChange::Show(p)
                }
            },
            None => {
                if self.current_preview.is_some() {
                    self.current_preview = None;
                    PreviewChange::Hide
                } else {
                    PreviewChange::Keep
                }
            },
        }
    }
}

} // verus!
