//! klipdot configuration defaults, validation and tool choice.

use rck_core::klipdot::config::{mime_type_for, screenshot_source, Config, LogLevel};
use rck_core::klipdot::error::Error;
use rck_core::klipdot::DisplayServer;
use rck_core::klipdot::config::{ClipboardToolsConfig, DisplayServerConfig, ScreenshotToolsConfig};

fn default_config() -> Config {
    Config::defaults_in("/home/user/.klipdot", 1_700_000_000)
}

#[test]
fn test_default_config() {
    let config = default_config();
    assert!(config.enabled);
    assert!(!config.auto_start);
    assert!(config.intercept_methods.clipboard);
    assert!(config.shell_integration.enabled);
    assert_eq!(config.compression_quality, 90);
}

#[test]
fn test_config_validation() {
    let mut config = default_config();

    // Valid config should pass
    assert!(config.validate().is_ok());

    // Invalid poll interval
    config.poll_interval = 50;
    assert!(config.validate().is_err());
    config.poll_interval = 1000;

    // Invalid compression quality
    config.compression_quality = 150;
    assert!(config.validate().is_err());
    config.compression_quality = 90;

    // Invalid cleanup days
    config.cleanup_days = 0;
    assert!(config.validate().is_err());
}

#[test]
fn test_image_format_support() {
    let config = default_config();
    assert!(config.is_image_format_supported("png"));
    assert!(config.is_image_format_supported("PNG"));
    assert!(config.is_image_format_supported("jpg"));
    assert!(!config.is_image_format_supported("txt"));
    assert!(!config.is_image_format_supported("exe"));
}

#[test]
fn validation_reports_first_broken_rule() {
    let mut config = default_config();
    config.max_file_size = 10;
    config.cleanup_days = 0;
    match config.validate() {
        Err(Error::Validation(m)) => assert_eq!(m, "Max file size must be at least 1KB"),
        other => panic!("unexpected {:?}", other),
    }
}

#[test]
fn default_paths_and_levels() {
    let config = default_config();
    assert_eq!(config.screenshot_dir, "/home/user/.klipdot/screenshots");
    assert_eq!(config.config_file, "/home/user/.klipdot/config.json");
    assert_eq!(config.get_screenshot_path("a.png"), "/home/user/.klipdot/screenshots/a.png");
    assert_eq!(config.get_log_level(), LogLevel::Info);
    let mut c = default_config();
    c.log_level = "DEBUG".to_string();
    assert_eq!(c.get_log_level(), LogLevel::Debug);
    c.log_level = "loud".to_string();
    assert_eq!(c.get_log_level(), LogLevel::Info);
}

#[test]
fn display_server_preference() {
    let mut c = default_config();
    assert_eq!(c.get_display_server(DisplayServer::X11), DisplayServer::X11);
    c.display_server.auto_detect = false;
    c.display_server.preferred_server = Some("Wayland".to_string());
    assert_eq!(c.get_display_server(DisplayServer::X11), DisplayServer::Wayland);
    c.display_server.preferred_server = Some("beos".to_string());
    assert_eq!(c.get_display_server(DisplayServer::X11), DisplayServer::Unknown);
    c.display_server.preferred_server = None;
    assert_eq!(c.get_display_server(DisplayServer::MacOS), DisplayServer::MacOS);
}

#[test]
fn clipboard_tool_choice() {
    let c = default_config();
    // The preferred tool alone when installed.
    let installed = vec!["wl-copy".to_string(), "xclip".to_string()];
    assert_eq!(c.get_available_clipboard_tools(DisplayServer::Wayland, &installed), vec!["wl-copy"]);
    // Otherwise the server's tools, X11 ones as fallback on Wayland.
    let installed = vec!["xsel".to_string(), "wl-paste".to_string()];
    assert_eq!(
        c.get_available_clipboard_tools(DisplayServer::Wayland, &installed),
        vec!["wl-paste", "xsel"]
    );
    assert_eq!(c.get_available_clipboard_tools(DisplayServer::X11, &installed), vec!["xsel"]);
    let mut no_fallback = default_config();
    no_fallback.display_server.fallback_enabled = false;
    assert_eq!(
        no_fallback.get_available_clipboard_tools(DisplayServer::Wayland, &installed),
        vec!["wl-paste"]
    );
    assert!(c.get_available_clipboard_tools(DisplayServer::Unknown, &[]).is_empty());
}

#[test]
fn screenshot_tool_choice_and_args() {
    let c = default_config();
    let installed = vec!["scrot".to_string(), "grimshot".to_string()];
    assert_eq!(c.get_available_screenshot_tools(DisplayServer::Wayland, &installed), vec!["grimshot"]);
    assert_eq!(
        c.get_available_screenshot_tools(DisplayServer::Unknown, &installed),
        vec!["grimshot", "scrot"]
    );
    assert_eq!(c.get_screenshot_tool_args("import"), vec!["-window", "root", "-"]);
    assert_eq!(c.get_screenshot_tool_args("grim"), vec!["-"]);
    assert!(c.get_screenshot_tool_args("screenshot").is_empty());
    assert!(c.get_screenshot_tool_args("paint").is_empty());
}

#[test]
fn screenshot_listing() {
    assert_eq!(screenshot_source("clipboard_2024.png"), "clipboard");
    assert_eq!(screenshot_source("x_terminal.png"), "terminal");
    assert_eq!(screenshot_source("shot.png"), "unknown");
    assert_eq!(mime_type_for(Some("jpeg")), "image/jpeg");
    assert_eq!(mime_type_for(Some("svg")), "image/svg+xml");
    assert_eq!(mime_type_for(Some("PNG")), "application/octet-stream");
    assert_eq!(mime_type_for(None), "application/octet-stream");
    let c = default_config();
    let s = c
        .create_screenshot_info("/s/stdin_1.gif", Some("stdin_1.gif"), Some("gif"), 42, 7)
        .unwrap();
    assert_eq!(s.source, "stdin");
    assert_eq!(s.mime_type, "image/gif");
    assert_eq!(s.size, 42);
    assert!(matches!(c.create_screenshot_info("/", None, None, 0, 0), Err(Error::Format(_))));
    assert!(Config::is_expired(0, 31 * 86400, 30));
    assert!(!Config::is_expired(0, 30 * 86400, 30));
}

#[test]
fn recent_screenshots_newest_first() {
    let c = default_config();
    let files = vec![
        ("/s/a.png".to_string(), 10u64),
        ("/s/notes.txt".to_string(), 50),
        ("/s/b.JPG".to_string(), 30),
        ("/s/c.gif".to_string(), 30),
        ("/s/d.png".to_string(), 5),
    ];
    assert_eq!(c.get_recent_screenshots(&files, 3), vec!["/s/b.JPG", "/s/c.gif", "/s/a.png"]);
    assert_eq!(c.get_recent_screenshots(&files, 10).len(), 4);
    assert!(c.get_recent_screenshots(&files, 0).is_empty());
}

#[test]
fn platform_tool_defaults() {
    let c = ClipboardToolsConfig::for_platform(true);
    assert_eq!(c.wayland_tools, vec!["wl-copy", "wl-paste", "pbcopy", "pbpaste"]);
    assert_eq!(c.x11_tools, vec!["xclip", "xsel", "pbcopy", "pbpaste"]);
    assert_eq!(c.preferred_tool.as_deref(), Some("pbcopy"));
    let c = ClipboardToolsConfig::for_platform(false);
    assert_eq!(c.wayland_tools, vec!["wl-copy", "wl-paste"]);
    assert_eq!(c.preferred_tool.as_deref(), Some("wl-copy"));
    let s = ScreenshotToolsConfig::for_platform(true);
    assert_eq!(s.x11_tools.last().map(|t| t.as_str()), Some("screencapture"));
    assert_eq!(s.wayland_tools.last().map(|t| t.as_str()), Some("screencapture"));
    assert_eq!(s.preferred_tool.as_deref(), Some("screencapture"));
    let s = ScreenshotToolsConfig::for_platform(false);
    assert_eq!(s.preferred_tool.as_deref(), Some("grim"));
    assert_eq!(s.x11_tools, vec!["scrot", "gnome-screenshot", "import", "xfce4-screenshooter"]);
    let d = DisplayServerConfig::for_platform(true);
    assert_eq!(d.clipboard_tools.preferred_tool.as_deref(), Some("pbcopy"));
    assert!(d.fallback_enabled && d.auto_detect);
}
