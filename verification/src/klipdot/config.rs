//! klipdot's configuration: its defaults, its validation, and the choices it
//! drives (supported formats, log level, display server, clipboard and
//! screenshot tools).

use vstd::prelude::*;

use crate::klipdot::error::Error;
use crate::klipdot::{
    join, join_path, keys_distinct, lowercase, owned_strings, to_lowercase, DisplayServer, CONFIG_FILE,
    DEFAULT_CLEANUP_DAYS, DEFAULT_POLL_INTERVAL, IMAGE_QUALITY, MAX_FILE_SIZE, SCREENSHOT_DIR,
};
use crate::text::{contains, str_contains, str_eq};

verus! {

/// Which capture paths klipdot watches.
#[derive(Debug, Clone, Copy, PartialEq, Eq, Structural)]
pub struct InterceptMethods {
    pub clipboard: bool,
    pub terminal: bool,
    pub drag_drop: bool,
    pub stdin: bool,
    pub file_watch: bool,
    pub process_monitor: bool,
}

impl Default for InterceptMethods {
    /// Every capture path on.
    fn default() -> (m: Self)
        ensures
            m.clipboard && m.terminal && m.drag_drop && m.stdin && m.file_watch && m.process_monitor,
    {
        InterceptMethods {
            clipboard: true,
            terminal: true,
            drag_drop: true,
            stdin: true,
            file_watch: true,
            process_monitor: true,
        }
    }
}

/// Shell integration settings.
#[derive(Debug, Clone)]
pub struct ShellIntegration {
    pub enabled: bool,
    pub shells: Vec<String>,
    pub hook_commands: Vec<String>,
    pub aliases: Vec<String>,
}

impl Default for ShellIntegration {
    /// Enabled for bash and zsh, hooking `cp`, `mv`, `scp` and `rsync`, with
    /// aliases for `cp`, `mv` and `scp`.
    fn default() -> (s: Self)
        ensures
            s.enabled,
            s.shells.deep_view() == seq!["bash"@, "zsh"@],
            s.hook_commands.deep_view() == seq!["cp"@, "mv"@, "scp"@, "rsync"@],
            s.aliases.deep_view() == seq!["cp"@, "mv"@, "scp"@],
    {
        let shells = owned_strings(&["bash", "zsh"]);
        let hook_commands = owned_strings(&["cp", "mv", "scp", "rsync"]);
        let aliases = owned_strings(&["cp", "mv", "scp"]);
        ShellIntegration { enabled: true, shells, hook_commands, aliases }
    }
}

/// Clipboard tools by display server, and the one to try first.
#[derive(Debug, Clone)]
pub struct ClipboardToolsConfig {
    pub wayland_tools: Vec<String>,
    pub x11_tools: Vec<String>,
    pub preferred_tool: Option<String>,
}

/// The Wayland clipboard tools.
pub open spec fn wayland_clipboard_tools() -> Seq<Seq<char>> {
    seq!["wl-copy"@, "wl-paste"@]
}

/// The X11 clipboard tools.
pub open spec fn x11_clipboard_tools() -> Seq<Seq<char>> {
    seq!["xclip"@, "xsel"@]
}

/// The macOS clipboard tools, added to both lists on macOS.
pub open spec fn macos_clipboard_tools() -> Seq<Seq<char>> {
    seq!["pbcopy"@, "pbpaste"@]
}

/// The tools `extra` when `macos` holds, none otherwise.
pub open spec fn on_macos(macos: bool, extra: Seq<Seq<char>>) -> Seq<Seq<char>> {
    if macos {
        extra
    } else {
        seq![]
    }
}

impl ClipboardToolsConfig {
    /// The default tools on macOS (`macos`) or elsewhere: the Wayland and X11
    /// lists, each followed on macOS by the macOS tools, preferring `pbcopy`
    /// on macOS and `wl-copy` elsewhere.
    pub fn for_platform(macos: bool) -> (c: Self)
        ensures
            c.wayland_tools.deep_view() == wayland_clipboard_tools() + on_macos(macos, macos_clipboard_tools()),
            c.x11_tools.deep_view() == x11_clipboard_tools() + on_macos(macos, macos_clipboard_tools()),
            c.preferred_tool.deep_view() == Some(if macos { "pbcopy"@ } else { "wl-copy"@ }),
    {
        if macos {
            let wayland_tools = owned_strings(&["wl-copy", "wl-paste", "pbcopy", "pbpaste"]);
            let x11_tools = owned_strings(&["xclip", "xsel", "pbcopy", "pbpaste"]);
            assert(wayland_tools.deep_view() =~= wayland_clipboard_tools() + macos_clipboard_tools());
            assert(x11_tools.deep_view() =~= x11_clipboard_tools() + macos_clipboard_tools());
            ClipboardToolsConfig { wayland_tools, x11_tools, preferred_tool: Some("pbcopy".to_owned()) }
        } else {
            let wayland_tools = owned_strings(&["wl-copy", "wl-paste"]);
            let x11_tools = owned_strings(&["xclip", "xsel"]);
            assert(wayland_tools.deep_view() =~= wayland_clipboard_tools() + Seq::<Seq<char>>::empty());
            assert(x11_tools.deep_view() =~= x11_clipboard_tools() + Seq::<Seq<char>>::empty());
            ClipboardToolsConfig { wayland_tools, x11_tools, preferred_tool: Some("wl-copy".to_owned()) }
        }
    }
}

impl Default for ClipboardToolsConfig {
    /// The defaults off macOS: the Wayland and X11 tool lists, preferring
    /// `wl-copy` (see [`ClipboardToolsConfig::for_platform`]).
    fn default() -> (c: Self)
        ensures
            c.wayland_tools.deep_view() == wayland_clipboard_tools(),
            c.x11_tools.deep_view() == x11_clipboard_tools(),
            c.preferred_tool.deep_view() == Some("wl-copy"@),
    {
        let c = ClipboardToolsConfig::for_platform(false);
        assert(wayland_clipboard_tools() + Seq::<Seq<char>>::empty() =~= wayland_clipboard_tools());
        assert(x11_clipboard_tools() + Seq::<Seq<char>>::empty() =~= x11_clipboard_tools());
        c
    }
}

/// Screenshot tools by display server, the one to try first, and the
/// arguments each tool is run with.
#[derive(Debug, Clone)]
pub struct ScreenshotToolsConfig {
    pub wayland_tools: Vec<String>,
    pub x11_tools: Vec<String>,
    pub preferred_tool: Option<String>,
    /// `(tool, arguments)` pairs; a tool occurs at most once.
    pub default_args: Vec<(String, Vec<String>)>,
}

/// The Wayland screenshot tools.
pub open spec fn wayland_screenshot_tools() -> Seq<Seq<char>> {
    seq!["grim"@, "wayshot"@, "grimshot"@, "spectacle"@, "flameshot"@]
}

/// The X11 screenshot tools.
pub open spec fn x11_screenshot_tools() -> Seq<Seq<char>> {
    seq!["scrot"@, "gnome-screenshot"@, "import"@, "xfce4-screenshooter"@]
}

/// The arguments each known screenshot tool is run with.
pub open spec fn default_tool_args() -> Seq<(Seq<char>, Seq<Seq<char>>)> {
    seq![
        ("grim"@, seq!["-"@]),
        ("wayshot"@, seq!["--stdout"@]),
        ("grimshot"@, seq!["copy"@, "screen"@]),
        ("spectacle"@, seq!["-b"@, "-n"@]),
        ("flameshot"@, seq!["gui"@]),
        ("scrot"@, seq!["-"@]),
        ("gnome-screenshot"@, seq!["-f"@, "-"@]),
        ("import"@, seq!["-window"@, "root"@, "-"@]),
        ("xfce4-screenshooter"@, seq!["-f"@, "-s"@]),
        ("screencapture"@, seq!["-c"@]),
        ("screenshot"@, seq![]),
    ]
}

/// No known screenshot tool has two argument lists.
pub proof fn default_tool_args_keys_distinct()
    ensures
        keys_distinct(default_tool_args()),
{
    reveal_strlit("grim");
    reveal_strlit("wayshot");
    reveal_strlit("grimshot");
    reveal_strlit("spectacle");
    reveal_strlit("flameshot");
    reveal_strlit("scrot");
    reveal_strlit("gnome-screenshot");
    reveal_strlit("import");
    reveal_strlit("xfce4-screenshooter");
    reveal_strlit("screencapture");
    reveal_strlit("screenshot");
    let t = default_tool_args();
    assert forall|i: int, j: int| 0 <= i < j < t.len() implies t[i].0 != t[j].0 by {
        assert(t[i].0.len() != t[j].0.len() || t[i].0[0] != t[j].0[0]);
    }
}

fn tool_args(tool: &str, args: &[&str]) -> (p: (String, Vec<String>))
    ensures
        p.deep_view() == (tool@, args@.map_values(|s: &str| s@)),
{
    (tool.to_owned(), owned_strings(args))
}

/// The macOS screenshot tools, added to both lists on macOS.
pub open spec fn macos_screenshot_tools() -> Seq<Seq<char>> {
    seq!["screencapture"@]
}

impl ScreenshotToolsConfig {
    /// The default tools on macOS (`macos`) or elsewhere: the Wayland and X11
    /// lists, each followed on macOS by the macOS tools, preferring
    /// `screencapture` on macOS and `grim` elsewhere, with each known tool's
    /// arguments.
    pub fn for_platform(macos: bool) -> (c: Self)
        ensures
            c.wayland_tools.deep_view() == wayland_screenshot_tools() + on_macos(macos, macos_screenshot_tools()),
            c.x11_tools.deep_view() == x11_screenshot_tools() + on_macos(macos, macos_screenshot_tools()),
            c.preferred_tool.deep_view() == Some(if macos { "screencapture"@ } else { "grim"@ }),
            c.default_args.deep_view() == default_tool_args(),
            keys_distinct(c.default_args.deep_view()),
    {
        let c = ScreenshotToolsConfig::default();
        if macos {
            let mut wayland_tools = c.wayland_tools;
            let mut x11_tools = c.x11_tools;
            let ghost w0 = wayland_tools.deep_view();
            let ghost x0 = x11_tools.deep_view();
            wayland_tools.push("screencapture".to_owned());
            x11_tools.push("screencapture".to_owned());
            assert(wayland_tools.deep_view() =~= w0 + macos_screenshot_tools());
            assert(x11_tools.deep_view() =~= x0 + macos_screenshot_tools());
            ScreenshotToolsConfig {
                wayland_tools,
                x11_tools,
                preferred_tool: Some("screencapture".to_owned()),
                default_args: c.default_args,
            }
        } else {
            assert(wayland_screenshot_tools() + Seq::<Seq<char>>::empty() =~= wayland_screenshot_tools());
            assert(x11_screenshot_tools() + Seq::<Seq<char>>::empty() =~= x11_screenshot_tools());
            c
        }
    }
}

impl Default for ScreenshotToolsConfig {
    /// The defaults off macOS: the Wayland and X11 tool lists, preferring
    /// `grim`, with each known tool's arguments (see
    /// [`ScreenshotToolsConfig::for_platform`]).
    fn default() -> (c: Self)
        ensures
            c.wayland_tools.deep_view() == wayland_screenshot_tools(),
            c.x11_tools.deep_view() == x11_screenshot_tools(),
            c.preferred_tool.deep_view() == Some("grim"@),
            c.default_args.deep_view() == default_tool_args(),
            keys_distinct(c.default_args.deep_view()),
    {
        proof {
            default_tool_args_keys_distinct();
        }
        let a0 = tool_args("grim", &["-"]);
        assert(a0.deep_view() == ("grim"@, seq!["-"@]));
        let a1 = tool_args("wayshot", &["--stdout"]);
        assert(a1.deep_view() == ("wayshot"@, seq!["--stdout"@]));
        let a2 = tool_args("grimshot", &["copy", "screen"]);
        assert(a2.deep_view() == ("grimshot"@, seq!["copy"@, "screen"@]));
        let a3 = tool_args("spectacle", &["-b", "-n"]);
        assert(a3.deep_view() == ("spectacle"@, seq!["-b"@, "-n"@]));
        let a4 = tool_args("flameshot", &["gui"]);
        assert(a4.deep_view() == ("flameshot"@, seq!["gui"@]));
        let a5 = tool_args("scrot", &["-"]);
        assert(a5.deep_view() == ("scrot"@, seq!["-"@]));
        let a6 = tool_args("gnome-screenshot", &["-f", "-"]);
        assert(a6.deep_view() == ("gnome-screenshot"@, seq!["-f"@, "-"@]));
        let a7 = tool_args("import", &["-window", "root", "-"]);
        assert(a7.deep_view() == ("import"@, seq!["-window"@, "root"@, "-"@]));
        let a8 = tool_args("xfce4-screenshooter", &["-f", "-s"]);
        assert(a8.deep_view() == ("xfce4-screenshooter"@, seq!["-f"@, "-s"@]));
        let a9 = tool_args("screencapture", &["-c"]);
        assert(a9.deep_view() == ("screencapture"@, seq!["-c"@]));
        let a10 = tool_args("screenshot", &[]);
        assert(a10.deep_view() == ("screenshot"@, Seq::<Seq<char>>::empty()));
        let default_args: Vec<(String, Vec<String>)> = vec![a0, a1, a2, a3, a4, a5, a6, a7, a8, a9, a10];
        let wayland_tools = owned_strings(&["grim", "wayshot", "grimshot", "spectacle", "flameshot"]);
        let x11_tools = owned_strings(&["scrot", "gnome-screenshot", "import", "xfce4-screenshooter"]);
        assert(default_args.deep_view() =~= default_tool_args());
        ScreenshotToolsConfig {
            wayland_tools,
            x11_tools,
            preferred_tool: Some("grim".to_owned()),
            default_args,
        }
    }
}

/// Display-server handling: detect it or use a preferred one, the Wayland
/// compositor, the tools, and whether X11 tools back up Wayland ones.
#[derive(Debug, Clone)]
pub struct DisplayServerConfig {
    pub auto_detect: bool,
    /// `"wayland"`, `"x11"` or `"macos"`; `None` detects.
    pub preferred_server: Option<String>,
    pub wayland_compositor: Option<String>,
    pub clipboard_tools: ClipboardToolsConfig,
    pub screenshot_tools: ScreenshotToolsConfig,
    pub fallback_enabled: bool,
}

impl DisplayServerConfig {
    /// The defaults on macOS (`macos`) or elsewhere: detect the display
    /// server, no compositor named, that platform's default tools, with
    /// fallback on.
    pub fn for_platform(macos: bool) -> (c: Self)
        ensures
            c.auto_detect,
            c.preferred_server is None,
            c.wayland_compositor is None,
            c.clipboard_tools.wayland_tools.deep_view() == wayland_clipboard_tools() + on_macos(
                macos,
                macos_clipboard_tools(),
            ),
            c.clipboard_tools.x11_tools.deep_view() == x11_clipboard_tools() + on_macos(macos, macos_clipboard_tools()),
            c.clipboard_tools.preferred_tool.deep_view() == Some(if macos { "pbcopy"@ } else { "wl-copy"@ }),
            c.screenshot_tools.wayland_tools.deep_view() == wayland_screenshot_tools() + on_macos(
                macos,
                macos_screenshot_tools(),
            ),
            c.screenshot_tools.x11_tools.deep_view() == x11_screenshot_tools() + on_macos(
                macos,
                macos_screenshot_tools(),
            ),
            c.screenshot_tools.preferred_tool.deep_view() == Some(
                if macos { "screencapture"@ } else { "grim"@ },
            ),
            c.screenshot_tools.default_args.deep_view() == default_tool_args(),
            c.fallback_enabled,
    {
        DisplayServerConfig {
            auto_detect: true,
            preferred_server: None,
            wayland_compositor: None,
            clipboard_tools: ClipboardToolsConfig::for_platform(macos),
            screenshot_tools: ScreenshotToolsConfig::for_platform(macos),
            fallback_enabled: true,
        }
    }
}

impl Default for DisplayServerConfig {
    /// The defaults off macOS: detect the display server, no compositor
    /// named, default tools, with fallback on.
    fn default() -> (c: Self)
        ensures
            c.auto_detect,
            c.preferred_server is None,
            c.wayland_compositor is None,
            c.clipboard_tools.wayland_tools.deep_view() == wayland_clipboard_tools(),
            c.clipboard_tools.x11_tools.deep_view() == x11_clipboard_tools(),
            c.clipboard_tools.preferred_tool.deep_view() == Some("wl-copy"@),
            c.screenshot_tools.wayland_tools.deep_view() == wayland_screenshot_tools(),
            c.screenshot_tools.x11_tools.deep_view() == x11_screenshot_tools(),
            c.screenshot_tools.preferred_tool.deep_view() == Some("grim"@),
            c.screenshot_tools.default_args.deep_view() == default_tool_args(),
            c.fallback_enabled,
    {
        DisplayServerConfig {
            auto_detect: true,
            preferred_server: None,
            wayland_compositor: None,
            clipboard_tools: ClipboardToolsConfig::default(),
            screenshot_tools: ScreenshotToolsConfig::default(),
            fallback_enabled: true,
        }
    }
}

/// The image formats (file extensions) klipdot handles by default.
pub open spec fn supported_formats() -> Seq<Seq<char>> {
    seq!["png"@, "jpg"@, "jpeg"@, "gif"@, "bmp"@, "webp"@, "svg"@]
}

/// klipdot's configuration. Paths are strings; times are Unix seconds.
#[derive(Debug, Clone)]
pub struct Config {
    pub enabled: bool,
    pub auto_start: bool,
    pub screenshot_dir: String,
    pub config_file: String,
    /// Clipboard polling interval in milliseconds.
    pub poll_interval: u64,
    pub image_formats: Vec<String>,
    pub max_file_size: u64,
    pub compression_quality: u8,
    pub cleanup_days: u32,
    pub enable_logging: bool,
    pub log_level: String,
    pub intercept_methods: InterceptMethods,
    pub shell_integration: ShellIntegration,
    pub display_server: DisplayServerConfig,
    pub created_at: i64,
    pub updated_at: i64,
}

/// Logging verbosity.
#[derive(Debug, Clone, Copy, PartialEq, Eq, Structural)]
pub enum LogLevel {
    Error,
    Warn,
    Info,
    Debug,
    Trace,
}

/// The log level a (lowercased) name selects; unknown names select `Info`.
pub open spec fn level_named(name: Seq<char>) -> LogLevel {
    if name == "error"@ {
        LogLevel::Error
    } else if name == "warn"@ {
        LogLevel::Warn
    } else if name == "info"@ {
        LogLevel::Info
    } else if name == "debug"@ {
        LogLevel::Debug
    } else if name == "trace"@ {
        LogLevel::Trace
    } else {
        LogLevel::Info
    }
}

/// The display server a (lowercased) name selects.
pub open spec fn server_named(name: Seq<char>) -> DisplayServer {
    if name == "wayland"@ {
        DisplayServer::Wayland
    } else if name == "x11"@ {
        DisplayServer::X11
    } else if name == "macos"@ {
        DisplayServer::MacOS
    } else {
        DisplayServer::Unknown
    }
}

/// What `validate` reports for a configuration: the first broken rule.
pub open spec fn validation_failure(c: Config) -> Option<Seq<char>> {
    if c.poll_interval < 100 {
        Some("Poll interval must be at least 100ms"@)
    } else if c.max_file_size < 1024 {
        Some("Max file size must be at least 1KB"@)
    } else if c.compression_quality > 100 {
        Some("Compression quality must be between 0-100"@)
    } else if c.cleanup_days == 0 {
        Some("Cleanup days must be greater than 0"@)
    } else {
        None
    }
}

/// The display server a configuration selects, given the detected one.
pub open spec fn chosen_server(c: DisplayServerConfig, detected: DisplayServer) -> DisplayServer {
    if c.auto_detect {
        detected
    } else {
        match c.preferred_server {
            Some(p) => server_named(lowercase(p@)),
            None => detected,
        }
    }
}

/// The tools of `tools` that are available, in order.
pub open spec fn present(tools: Seq<Seq<char>>, available: Seq<Seq<char>>) -> Seq<Seq<char>>
    decreases tools.len(),
{
    if tools.len() == 0 {
        seq![]
    } else {
        let rest = present(tools.drop_last(), available);
        if available.contains(tools.last()) {
            rest.push(tools.last())
        } else {
            rest
        }
    }
}

/// The tools to use, in order: the preferred tool alone when it is available;
/// otherwise the available tools for the display server (Wayland ones, then
/// X11 ones when fallback is on; X11 ones on X11 and macOS; both when the
/// server is unknown).
pub open spec fn tool_choice(
    preferred: Option<Seq<char>>,
    wayland: Seq<Seq<char>>,
    x11: Seq<Seq<char>>,
    fallback: bool,
    server: DisplayServer,
    available: Seq<Seq<char>>,
) -> Seq<Seq<char>> {
    if preferred is Some && available.contains(preferred->0) {
        seq![preferred->0]
    } else {
        match server {
            DisplayServer::Wayland => present(wayland, available) + if fallback {
                present(x11, available)
            } else {
                seq![]
            },
            DisplayServer::X11 => present(x11, available),
            DisplayServer::MacOS => present(x11, available),
            DisplayServer::Unknown => present(wayland, available) + present(x11, available),
        }
    }
}

/// The arguments recorded for `tool`: those of its first entry, or none.
pub open spec fn args_for(entries: Seq<(Seq<char>, Seq<Seq<char>>)>, tool: Seq<char>) -> Seq<Seq<char>>
    decreases entries.len(),
{
    if entries.len() == 0 {
        seq![]
    } else if entries[0].0 == tool {
        entries[0].1
    } else {
        args_for(entries.drop_first(), tool)
    }
}

fn append_present(out: &mut Vec<String>, tools: &Vec<String>, available: &[String])
    ensures
        final(out).deep_view() == old(out).deep_view() + present(tools.deep_view(), available.deep_view()),
{
    let mut i: usize = 0;
    let ghost start = out.deep_view();
    while i < tools.len()
        invariant
            i <= tools@.len(),
            out.deep_view() == start + present(tools.deep_view().take(i as int), available.deep_view()),
        decreases tools@.len() - i,
    {
        let ghost prev = out.deep_view();
        assert(tools.deep_view().take(i + 1).drop_last() =~= tools.deep_view().take(i as int));
        if contains_in(available, tools[i].as_str()) {
            out.push(tools[i].clone());
            assert(out.deep_view() =~= prev.push(tools.deep_view()[i as int]));
        }
        i += 1;
    }
    assert(tools.deep_view().take(tools@.len() as int) =~= tools.deep_view());
}

/// Whether `s` is one of `items`.
pub(crate) fn contains_in(items: &[String], s: &str) -> (r: bool)
    ensures
        r == items.deep_view().contains(s@),
{
    let mut i: usize = 0;
    while i < items.len()
        invariant
            i <= items@.len(),
            forall|k: int| 0 <= k < i ==> items.deep_view()[k] != s@,
        decreases items@.len() - i,
    {
        if str_eq(items[i].as_str(), s) {
            assert(items.deep_view()[i as int] == s@);
            return true;
        }
        i += 1;
    }
    false
}

fn choose_tools(
    preferred: &Option<String>,
    wayland: &Vec<String>,
    x11: &Vec<String>,
    fallback: bool,
    server: DisplayServer,
    available: &[String],
) -> (tools: Vec<String>)
    ensures
        tools.deep_view() == tool_choice(
            preferred.deep_view(),
            wayland.deep_view(),
            x11.deep_view(),
            fallback,
            server,
            available.deep_view(),
        ),
{
    let mut tools: Vec<String> = Vec::new();
    if let Some(p) = preferred {
        if contains_in(available, p.as_str()) {
            tools.push(p.clone());
            assert(tools.deep_view() =~= seq![p@]);
            return tools;
        }
    }
    assert(tools.deep_view() =~= Seq::<Seq<char>>::empty());
    match server {
        DisplayServer::Wayland => {
            append_present(&mut tools, wayland, available);
            if fallback {
                append_present(&mut tools, x11, available);
            }
        },
        DisplayServer::X11 | DisplayServer::MacOS => {
            append_present(&mut tools, x11, available);
        },
        DisplayServer::Unknown => {
            append_present(&mut tools, wayland, available);
            append_present(&mut tools, x11, available);
        },
    }
    tools
}

impl Config {
    /// The default configuration for klipdot's home directory `home_dir`,
    /// created at `now`: enabled, not auto-started, screenshots under
    /// `home_dir/screenshots`, configuration in `home_dir/config.json`, the
    /// supported formats, quality 90, logging at `info`, and the default
    /// capture, shell and display-server settings.
    pub fn defaults_in(home_dir: &str, now: i64) -> (c: Self)
        ensures
            c.enabled,
            !c.auto_start,
            c.screenshot_dir@ == join_path(home_dir@, SCREENSHOT_DIR@),
            c.config_file@ == join_path(home_dir@, CONFIG_FILE@),
            c.poll_interval == DEFAULT_POLL_INTERVAL,
            c.image_formats.deep_view() == supported_formats(),
            c.max_file_size == MAX_FILE_SIZE,
            c.compression_quality == IMAGE_QUALITY,
            c.cleanup_days == DEFAULT_CLEANUP_DAYS,
            c.enable_logging,
            c.log_level@ == "info"@,
            c.intercept_methods == (InterceptMethods {
                clipboard: true,
                terminal: true,
                drag_drop: true,
                stdin: true,
                file_watch: true,
                process_monitor: true,
            }),
            c.shell_integration.enabled,
            c.shell_integration.shells.deep_view() == seq!["bash"@, "zsh"@],
            c.shell_integration.hook_commands.deep_view() == seq!["cp"@, "mv"@, "scp"@, "rsync"@],
            c.shell_integration.aliases.deep_view() == seq!["cp"@, "mv"@, "scp"@],
            c.display_server.auto_detect,
            c.display_server.preferred_server is None,
            c.display_server.wayland_compositor is None,
            c.display_server.clipboard_tools.wayland_tools.deep_view() == wayland_clipboard_tools(),
            c.display_server.clipboard_tools.x11_tools.deep_view() == x11_clipboard_tools(),
            c.display_server.clipboard_tools.preferred_tool.deep_view() == Some("wl-copy"@),
            c.display_server.screenshot_tools.wayland_tools.deep_view() == wayland_screenshot_tools(),
            c.display_server.screenshot_tools.x11_tools.deep_view() == x11_screenshot_tools(),
            c.display_server.screenshot_tools.preferred_tool.deep_view() == Some("grim"@),
            c.display_server.screenshot_tools.default_args.deep_view() == default_tool_args(),
            c.display_server.fallback_enabled,
            c.created_at == now,
            c.updated_at == now,
            validation_failure(c) is None,
    {
        Config {
            enabled: true,
            auto_start: false,
            screenshot_dir: join(home_dir, SCREENSHOT_DIR),
            config_file: join(home_dir, CONFIG_FILE),
            poll_interval: DEFAULT_POLL_INTERVAL,
            image_formats: owned_strings(&["png", "jpg", "jpeg", "gif", "bmp", "webp", "svg"]),
            max_file_size: MAX_FILE_SIZE,
            compression_quality: IMAGE_QUALITY,
            cleanup_days: DEFAULT_CLEANUP_DAYS,
            enable_logging: true,
            log_level: "info".to_owned(),
            intercept_methods: InterceptMethods::default(),
            shell_integration: ShellIntegration::default(),
            display_server: DisplayServerConfig::default(),
            created_at: now,
            updated_at: now,
        }
    }

    /// Checks the configuration's bounds: a poll interval of at least 100 ms,
    /// a size limit of at least 1 KiB, a quality of at most 100 and a
    /// non-zero cleanup age. The first broken rule is a `Validation` error.
    pub fn validate(&self) -> (r: Result<(), Error>)
        ensures
            r is Ok <==> validation_failure(*self) is None,
            r matches Err(e) ==> e matches Error::Validation(m) && Some(m@) == validation_failure(
                *self,
            ),
    {
        if self.poll_interval < 100 {
            return Err(Error::Validation("Poll interval must be at least 100ms".to_owned()));
        }
        if self.max_file_size < 1024 {
            return Err(Error::Validation("Max file size must be at least 1KB".to_owned()));
        }
        if self.compression_quality > 100 {
            return Err(Error::Validation("Compression quality must be between 0-100".to_owned()));
        }
        if self.cleanup_days == 0 {
            return Err(Error::Validation("Cleanup days must be greater than 0".to_owned()));
        }
        Ok(())
    }

    /// Whether files with extension `extension` are handled, comparing its
    /// lowercase form with the configured formats.
    pub fn is_image_format_supported(&self, extension: &str) -> (r: bool)
        ensures
            r == self.image_formats.deep_view().contains(lowercase(extension@)),
    {
        let lower = to_lowercase(extension);
        let formats = self.image_formats.as_slice();
        let r = contains_in(formats, lower.as_str());
        assert(formats.deep_view() =~= self.image_formats.deep_view());
        r
    }

    /// The path of screenshot `filename` in the screenshot directory.
    pub fn get_screenshot_path(&self, filename: &str) -> (p: String)
        ensures
            p@ == join_path(self.screenshot_dir@, filename@),
    {
        join(self.screenshot_dir.as_str(), filename)
    }

    /// The path of the configuration file.
    pub fn get_config_path(&self) -> (p: &str)
        ensures
            p@ == self.config_file@,
    {
        self.config_file.as_str()
    }

    /// The configured log level (names compared in lowercase; unknown names
    /// mean `Info`).
    pub fn get_log_level(&self) -> (l: LogLevel)
        ensures
            l == level_named(lowercase(self.log_level@)),
    {
        let lower = to_lowercase(self.log_level.as_str());
        let n = lower.as_str();
        if str_eq(n, "error") {
            LogLevel::Error
        } else if str_eq(n, "warn") {
            LogLevel::Warn
        } else if str_eq(n, "info") {
            LogLevel::Info
        } else if str_eq(n, "debug") {
            LogLevel::Debug
        } else if str_eq(n, "trace") {
            LogLevel::Trace
        } else {
            LogLevel::Info
        }
    }

    /// The display server to work with: the detected one when detection is on
    /// or nothing is preferred, otherwise the preferred one (names compared
    /// in lowercase; an unknown name means `Unknown`).
    pub fn get_display_server(&self, detected: DisplayServer) -> (s: DisplayServer)
        ensures
            s == chosen_server(self.display_server, detected),
    {
        if self.display_server.auto_detect {
            return detected;
        }
        match &self.display_server.preferred_server {
            Some(p) => {
                let lower = to_lowercase(p.as_str());
                let n = lower.as_str();
                if str_eq(n, "wayland") {
                    DisplayServer::Wayland
                } else if str_eq(n, "x11") {
                    DisplayServer::X11
                } else if str_eq(n, "macos") {
                    DisplayServer::MacOS
                } else {
                    DisplayServer::Unknown
                }
            },
            None => detected,
        }
    }

    /// The wayland compositor: the configured one, else the detected one.
    pub fn get_wayland_compositor(&self, detected: Option<String>) -> (c: Option<String>)
        ensures
            c.deep_view() == match self.display_server.wayland_compositor {
                Some(n) => Some(n@),
                None => detected.deep_view(),
            },
    {
        match &self.display_server.wayland_compositor {
            Some(n) => Some(n.clone()),
            None => detected,
        }
    }

    /// The clipboard tools to use, in order, given the detected display server
    /// and the commands that are installed.
    pub fn get_available_clipboard_tools(&self, detected: DisplayServer, available: &[String]) -> (tools:
        Vec<String>)
        ensures
            tools.deep_view() == tool_choice(
                self.display_server.clipboard_tools.preferred_tool.deep_view(),
                self.display_server.clipboard_tools.wayland_tools.deep_view(),
                self.display_server.clipboard_tools.x11_tools.deep_view(),
                self.display_server.fallback_enabled,
                chosen_server(self.display_server, detected),
                available.deep_view(),
            ),
    {
        let server = self.get_display_server(detected);
        let t = &self.display_server.clipboard_tools;
        choose_tools(
            &t.preferred_tool,
            &t.wayland_tools,
            &t.x11_tools,
            self.display_server.fallback_enabled,
            server,
            available,
        )
    }

    /// The screenshot tools to use, in order, given the detected display
    /// server and the commands that are installed. Wayland never falls back
    /// to X11 tools here.
    pub fn get_available_screenshot_tools(&self, detected: DisplayServer, available: &[String]) -> (tools:
        Vec<String>)
        ensures
            tools.deep_view() == tool_choice(
                self.display_server.screenshot_tools.preferred_tool.deep_view(),
                self.display_server.screenshot_tools.wayland_tools.deep_view(),
                self.display_server.screenshot_tools.x11_tools.deep_view(),
                false,
                chosen_server(self.display_server, detected),
                available.deep_view(),
            ),
    {
        let server = self.get_display_server(detected);
        let t = &self.display_server.screenshot_tools;
        choose_tools(&t.preferred_tool, &t.wayland_tools, &t.x11_tools, false, server, available)
    }

    /// The arguments `tool` is run with (none for an unknown tool). No tool
    /// has two argument lists, as in every table the constructors build.
    pub fn get_screenshot_tool_args(&self, tool: &str) -> (args: Vec<String>)
        requires
            keys_distinct(self.display_server.screenshot_tools.default_args.deep_view()),
        ensures
            args.deep_view() == args_for(self.display_server.screenshot_tools.default_args.deep_view(), tool@),
    {
        let entries = &self.display_server.screenshot_tools.default_args;
        let mut i: usize = 0;
        assert(entries.deep_view().skip(0) =~= entries.deep_view());
        while i < entries.len()
            invariant
                i <= entries@.len(),
                *entries == self.display_server.screenshot_tools.default_args,
                args_for(entries.deep_view(), tool@) == args_for(entries.deep_view().skip(i as int), tool@),
            decreases entries@.len() - i,
        {
            assert(entries.deep_view().skip(i as int).drop_first() =~= entries.deep_view().skip(i + 1));
            assert(entries.deep_view().skip(i as int)[0] == entries.deep_view()[i as int]);
            if str_eq(entries[i].0.as_str(), tool) {
                let args = entries[i].1.clone();
                proof {
                    vstd::std_specs::vec::vec_clone_deep_view_proof(entries@[i as int].1, args);
                }
                assert(args.deep_view() =~= entries@[i as int].1.deep_view());
                assert(entries.deep_view()[i as int] == entries@[i as int].deep_view());
                assert(entries.deep_view().skip(i as int)[0].0 == tool@);
                assert(args_for(entries.deep_view().skip(i as int), tool@) == entries.deep_view().skip(
                    i as int,
                )[0].1);
                return args;
            }
            i += 1;
        }
        assert(entries.deep_view().skip(i as int) =~= Seq::<(Seq<char>, Seq<Seq<char>>)>::empty());
        Vec::new()
    }
}

/// A saved screenshot, as listed to the user.
#[derive(Debug, Clone)]
pub struct Screenshot {
    pub filename: String,
    pub path: String,
    pub size: u64,
    /// How it was captured: `clipboard`, `terminal`, `dragdrop`, `stdin` or
    /// `unknown`, read off its file name.
    pub source: String,
    pub created_at: i64,
    pub mime_type: String,
}

/// How a screenshot was captured, read off its file name.
pub open spec fn source_of(filename: Seq<char>) -> Seq<char> {
    if contains(filename, "clipboard"@) {
        "clipboard"@
    } else if contains(filename, "terminal"@) {
        "terminal"@
    } else if contains(filename, "dragdrop"@) {
        "dragdrop"@
    } else if contains(filename, "stdin"@) {
        "stdin"@
    } else {
        "unknown"@
    }
}

/// The MIME type of a file extension (matched exactly).
pub open spec fn mime_of(extension: Option<Seq<char>>) -> Seq<char> {
    match extension {
        Some(e) => if e == "png"@ {
            "image/png"@
        } else if e == "jpg"@ || e == "jpeg"@ {
            "image/jpeg"@
        } else if e == "gif"@ {
            "image/gif"@
        } else if e == "bmp"@ {
            "image/bmp"@
        } else if e == "webp"@ {
            "image/webp"@
        } else if e == "svg"@ {
            "image/svg+xml"@
        } else {
            "application/octet-stream"@
        },
        None => "application/octet-stream"@,
    }
}

/// How a screenshot was captured, read off its file name.
pub fn screenshot_source(filename: &str) -> (r: &'static str)
    ensures
        r@ == source_of(filename@),
{
    if str_contains(filename, "clipboard") {
        "clipboard"
    } else if str_contains(filename, "terminal") {
        "terminal"
    } else if str_contains(filename, "dragdrop") {
        "dragdrop"
    } else if str_contains(filename, "stdin") {
        "stdin"
    } else {
        "unknown"
    }
}

/// The MIME type of a file extension.
pub fn mime_type_for(extension: Option<&str>) -> (r: &'static str)
    ensures
        r@ == mime_of(
            match extension {
                Some(e) => Some(e@),
                None => None,
            },
        ),
{
    match extension {
        Some(e) => {
            if str_eq(e, "png") {
                "image/png"
            } else if str_eq(e, "jpg") || str_eq(e, "jpeg") {
                "image/jpeg"
            } else if str_eq(e, "gif") {
                "image/gif"
            } else if str_eq(e, "bmp") {
                "image/bmp"
            } else if str_eq(e, "webp") {
                "image/webp"
            } else if str_eq(e, "svg") {
                "image/svg+xml"
            } else {
                "application/octet-stream"
            }
        },
        None => "application/octet-stream",
    }
}

impl Config {
    /// The listing entry of the file at `path`, given what the file system
    /// says of it: its file name (`None` when the path has none, which is a
    /// `Format` error), its extension, its size and its creation time.
    pub fn create_screenshot_info(
        &self,
        path: &str,
        file_name: Option<&str>,
        extension: Option<&str>,
        size: u64,
        created_at: i64,
    ) -> (r: Result<Screenshot, Error>)
        ensures
            file_name is None <==> r is Err,
            r matches Err(e) ==> e matches Error::Format(m) && m@ == "Invalid filename"@,
            r matches Ok(s) ==> {
                &&& s.filename@ == file_name->0@
                &&& s.path@ == path@
                &&& s.size == size
                &&& s.source@ == source_of(file_name->0@)
                &&& s.created_at == created_at
                &&& s.mime_type@ == mime_of(
                    match extension {
                        Some(e) => Some(e@),
                        None => None,
                    },
                )
            },
    {
        match file_name {
            None => Err(Error::Format("Invalid filename".to_owned())),
            Some(name) => {
                let source = screenshot_source(name).to_owned();
                let mime_type = mime_type_for(extension).to_owned();
                Ok(
                    Screenshot {
                        filename: name.to_owned(),
                        path: path.to_owned(),
                        size,
                        source,
                        created_at,
                        mime_type,
                    },
                )
            },
        }
    }

    /// Whether a file last modified at `modified` is older than `days` days
    /// at time `now` (Unix seconds) and so due for cleanup.
    pub fn is_expired(modified: i64, now: i64, days: u32) -> (r: bool)
        ensures
            r == (modified < now - days * 86400),
    {
        let age: i128 = days as i128 * 86400;
        (modified as i128) < (now as i128) - age
    }
}

/// `x` inserted into `sorted` (newest first) after every file at least as
/// new: a stable place.
pub open spec fn insert_newest_first(sorted: Seq<(Seq<char>, u64)>, x: (Seq<char>, u64)) -> Seq<
    (Seq<char>, u64),
>
    decreases sorted.len(),
{
    if sorted.len() == 0 {
        seq![x]
    } else if sorted.last().1 >= x.1 {
        sorted.push(x)
    } else {
        insert_newest_first(sorted.drop_last(), x).push(sorted.last())
    }
}

/// Files ordered newest first; files of equal time keep their listing order.
pub open spec fn newest_first(files: Seq<(Seq<char>, u64)>) -> Seq<(Seq<char>, u64)>
    decreases files.len(),
{
    if files.len() == 0 {
        seq![]
    } else {
        insert_newest_first(newest_first(files.drop_last()), files.last())
    }
}

/// Whether files are ordered newest first.
pub open spec fn is_newest_first(s: Seq<(Seq<char>, u64)>) -> bool {
    forall|i: int, j: int| 0 <= i < j < s.len() ==> s[i].1 >= s[j].1
}

/// The listed image files (by supported extension) of a screenshot directory.
pub open spec fn image_files(c: Config, files: Seq<(Seq<char>, u64)>) -> Seq<(Seq<char>, u64)> {
    files.filter(
        |f: (Seq<char>, u64)|
            crate::klipdot::paths::extension_of(f.0) matches Some(e) && c.image_formats.deep_view().contains(
                lowercase(e),
            ),
    )
}

proof fn lemma_insert_at(s: Seq<(Seq<char>, u64)>, x: (Seq<char>, u64), j: int)
    requires
        0 <= j <= s.len(),
        j == 0 || s[j - 1].1 >= x.1,
        forall|k: int| j <= k < s.len() ==> s[k].1 < x.1,
    ensures
        insert_newest_first(s, x) == s.insert(j, x),
    decreases s.len(),
{
    if s.len() == 0 {
        assert(s.insert(j, x) =~= seq![x]);
    } else if s.last().1 >= x.1 {
        assert(j == s.len());
        assert(s.insert(j, x) =~= s.push(x));
    } else {
        lemma_insert_at(s.drop_last(), x, j);
        assert(s.insert(j, x) =~= s.drop_last().insert(j, x).push(s.last()));
    }
}

proof fn lemma_insert_sorted(s: Seq<(Seq<char>, u64)>, x: (Seq<char>, u64))
    requires
        is_newest_first(s),
    ensures
        is_newest_first(insert_newest_first(s, x)),
        insert_newest_first(s, x).to_multiset() == s.to_multiset().insert(x),
    decreases s.len(),
{
    broadcast use vstd::seq_lib::group_to_multiset_ensures;
    if s.len() == 0 {
        assert(seq![x] =~= Seq::<(Seq<char>, u64)>::empty().push(x));
    } else if s.last().1 >= x.1 {
    } else {
        let init = s.drop_last();
        assert(is_newest_first(init));
        lemma_insert_sorted(init, x);
        lemma_insert_members(init, x);
        let t = insert_newest_first(init, x);
        assert forall|i: int, j: int| 0 <= i < j < t.push(s.last()).len() implies t.push(s.last())[i].1 >= t.push(
            s.last(),
        )[j].1 by {
            if j == t.len() {
                if t[i] == x {
                } else {
                    let k = choose|k: int| 0 <= k < init.len() && init[k] == t[i];
                    assert(s[k] == init[k]);
                }
            }
        }
        assert(s =~= init.push(s.last()));
    }
}

proof fn lemma_insert_members(s: Seq<(Seq<char>, u64)>, x: (Seq<char>, u64))
    ensures
        forall|i: int|
            0 <= i < insert_newest_first(s, x).len() ==> (insert_newest_first(s, x)[i] == x || exists|k: int|
                0 <= k < s.len() && s[k] == #[trigger] insert_newest_first(s, x)[i]),
    decreases s.len(),
{
    if s.len() > 0 {
        if s.last().1 >= x.1 {
            assert forall|i: int| 0 <= i < insert_newest_first(s, x).len() implies (insert_newest_first(s, x)[i]
                == x || exists|k: int| 0 <= k < s.len() && s[k] == #[trigger] insert_newest_first(s, x)[i]) by {
                if i < s.len() {
                    assert(s[i] == insert_newest_first(s, x)[i]);
                }
            }
        } else {
            let init = s.drop_last();
            lemma_insert_members(init, x);
            let t = insert_newest_first(init, x);
            assert forall|i: int| 0 <= i < insert_newest_first(s, x).len() implies (insert_newest_first(s, x)[i]
                == x || exists|k: int| 0 <= k < s.len() && s[k] == #[trigger] insert_newest_first(s, x)[i]) by {
                if i < t.len() {
                    if t[i] != x {
                        let k = choose|k: int| 0 <= k < init.len() && init[k] == t[i];
                        assert(s[k] == init[k]);
                    }
                } else {
                    assert(s[s.len() - 1] == insert_newest_first(s, x)[i]);
                }
            }
        }
    }
}

/// Ordering newest first sorts by time and keeps every file exactly once.
pub proof fn newest_first_sorts(files: Seq<(Seq<char>, u64)>)
    ensures
        is_newest_first(newest_first(files)),
        newest_first(files).to_multiset() == files.to_multiset(),
    decreases files.len(),
{
    broadcast use vstd::seq_lib::group_to_multiset_ensures;
    if files.len() > 0 {
        newest_first_sorts(files.drop_last());
        lemma_insert_sorted(newest_first(files.drop_last()), files.last());
        assert(files =~= files.drop_last().push(files.last()));
    }
}

impl Config {
    /// The paths of the newest `limit` image files among the listed files of
    /// the screenshot directory (path and modification time each), newest
    /// first; files of equal time keep their listing order.
    pub fn get_recent_screenshots(&self, files: &[(String, u64)], limit: usize) -> (r: Vec<String>)
        ensures
            ({
                let sorted = newest_first(image_files(*self, files.deep_view()));
                let n = if limit < sorted.len() {
                    limit as int
                } else {
                    sorted.len() as int
                };
                r.deep_view() == sorted.take(n).map_values(|f: (Seq<char>, u64)| f.0)
            }),
    {
        let ghost listed = files.deep_view();
        let mut sorted: Vec<(String, u64)> = Vec::new();
        let mut i: usize = 0;
        while i < files.len()
            invariant
                i <= files@.len(),
                listed == files.deep_view(),
                sorted.deep_view() == newest_first(image_files(*self, listed.take(i as int))),
            decreases files@.len() - i,
        {
            assert(listed.take(i + 1).drop_last() =~= listed.take(i as int));
            assert(listed.take(i + 1).last() == listed[i as int]);
            reveal(Seq::filter);
            let keep = match crate::klipdot::paths::extension(files[i].0.as_str()) {
                Some(e) => self.is_image_format_supported(e.as_str()),
                None => false,
            };
            assert(listed[i as int].0 == files@[i as int].0@);
            let ghost prev = image_files(*self, listed.take(i as int));
            if keep {
                assert(image_files(*self, listed.take(i + 1)) =~= prev.push(listed[i as int]));
                assert(prev.push(listed[i as int]).drop_last() =~= prev);
                assert(newest_first(prev.push(listed[i as int])) == insert_newest_first(
                    newest_first(prev),
                    listed[i as int],
                ));
            } else {
                assert(image_files(*self, listed.take(i + 1)) =~= prev);
            }
            if keep {
                let stamp = files[i].1;
                let mut j: usize = sorted.len();
                while j > 0 && sorted[j - 1].1 < stamp
                    invariant
                        j <= sorted@.len(),
                        forall|k: int| j <= k < sorted@.len() ==> sorted@[k].1 < stamp,
                    decreases j,
                {
                    j -= 1;
                }
                let ghost before = sorted.deep_view();
                proof {
                    assert forall|k: int| j <= k < before.len() implies before[k].1 < stamp by {
                        assert(before[k].1 == sorted@[k].1);
                    }
                    lemma_insert_at(before, listed[i as int], j as int);
                }
                sorted.insert(j, (files[i].0.clone(), stamp));
                assert(sorted.deep_view() =~= before.insert(j as int, listed[i as int]));
            }
            i += 1;
        }
        assert(listed.take(i as int) =~= listed);
        let n = if limit < sorted.len() {
            limit
        } else {
            sorted.len()
        };
        let mut r: Vec<String> = Vec::new();
        let mut k: usize = 0;
        while k < n
            invariant
                k <= n <= sorted@.len(),
                r.deep_view() == sorted.deep_view().take(k as int).map_values(|f: (Seq<char>, u64)| f.0),
            decreases n - k,
        {
            let ghost before = r.deep_view();
            r.push(sorted[k].0.clone());
            assert(sorted.deep_view()[k as int].0 == sorted@[k as int].0@);
            assert(r.deep_view() =~= before.push(sorted.deep_view()[k as int].0));
            assert(r.deep_view() =~= sorted.deep_view().take(k + 1).map_values(|f: (Seq<char>, u64)| f.0));
            k += 1;
        }
        r
    }
}

} // verus!
