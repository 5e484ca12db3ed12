//! Process interception, previews, image checks and output monitoring.

use rck_core::klipdot::config::Config;
use rck_core::klipdot::error::Error;
use rck_core::klipdot::image_preview::{ImagePreviewManager, PreviewMethod};
use rck_core::klipdot::image_processor::ImageProcessor;
use rck_core::klipdot::interceptor::TerminalInterceptor;
use rck_core::klipdot::stdout_monitor::TuiPreviewAction;
use rck_core::klipdot::stdout_monitor::{
    DetectedImage, ImageSource, LivePreviewSystem, PreviewChange, StdoutMonitor, TuiPreviewMethod,
};

fn config() -> Config {
    Config::defaults_in("/tmp/klipdot-test", 0)
}

#[test]
fn test_terminal_interceptor_creation() {
    let interceptor = TerminalInterceptor::new(config());
    assert!(!interceptor.running);
    assert!(interceptor.process_monitors.is_empty());
}

#[test]
fn test_image_process_detection() {
    let interceptor = TerminalInterceptor::new(config());

    assert!(interceptor.is_image_process("screencapture"));
    assert!(interceptor.is_image_process("screenshot"));
    assert!(interceptor.is_image_process("scrot"));
    assert!(interceptor.is_image_process("convert"));
    assert!(!interceptor.is_image_process("bash"));
    assert!(!interceptor.is_image_process("vim"));
}

#[test]
fn test_screenshot_process_detection() {
    let interceptor = TerminalInterceptor::new(config());

    assert!(interceptor.is_screenshot_process("screencapture", &[]));
    assert!(interceptor.is_screenshot_process("gnome-screenshot", &[]));
    assert!(interceptor.is_screenshot_process("flameshot", &[]));
    assert!(!interceptor.is_screenshot_process("convert", &[]));
    assert!(!interceptor.is_screenshot_process("gimp", &[]));
    assert!(interceptor.is_screenshot_process("GIMP-2.10", &["gimp".to_string()]));
}

#[test]
fn test_cleanup_old_monitors() {
    let mut interceptor = TerminalInterceptor::new(config());
    let now = 10_000;
    interceptor.record_process("old_process", 12345, now - 400);
    interceptor.record_process("recent_process", 67890, now);
    assert_eq!(interceptor.process_monitors.len(), 2);

    interceptor.cleanup_old_monitors(now);

    assert_eq!(interceptor.process_monitors.len(), 1);
    assert_eq!(interceptor.process_monitors[0].name, "recent_process");
}

#[test]
fn record_replaces_same_name() {
    let mut t = TerminalInterceptor::new(config());
    t.record_process("grim", 1, 5);
    t.record_process("scrot", 2, 6);
    t.record_process("grim", 3, 7);
    assert_eq!(t.process_monitors.len(), 2);
    assert_eq!(t.process_monitors[1].name, "grim");
    assert_eq!(t.process_monitors[1].pid, Some(3));
}

#[test]
fn ps_lines() {
    let t = TerminalInterceptor::new(config());
    let p = t.parse_ps_line("  4242 grim   grim -g 0,0 shot.png").unwrap();
    assert_eq!(p.pid, 4242);
    assert_eq!(p.name, "grim");
    assert_eq!(p.command, "grim -g 0,0 shot.png");
    assert!(t.parse_ps_line("PID COMMAND ARGS").is_none());
    assert!(t.parse_ps_line("12 bash").is_none());
    assert!(t.is_wayland_screenshot_process("GRIMshot"));
    assert!(!t.is_wayland_screenshot_process("scrot"));
}

#[test]
fn test_parse_file_dimensions() {
    let file_output = "test.png: PNG image data, 1920 x 1080, 8-bit/color RGBA";
    let dims = ImagePreviewManager::parse_file_dimensions(file_output);
    assert_eq!(dims, Some("1920x1080".to_string()));
    assert_eq!(ImagePreviewManager::parse_file_dimensions("no numbers here"), None);
}

#[test]
fn preview_commands() {
    let m = ImagePreviewManager::new(config(), PreviewMethod::Kitty);
    assert_eq!(m.create_preview_command("/a b.png", false), "klipdot preview '/a b.png'");
    let m = ImagePreviewManager::new(config(), PreviewMethod::External("chafa".to_string()));
    assert_eq!(m.create_preview_command("x.png", false), "chafa 'x.png'");
    let m = ImagePreviewManager::new(config(), PreviewMethod::ASCII);
    assert_eq!(m.create_preview_command("x.png", true), "jp2a --colors 'x.png'");
    assert_eq!(m.create_preview_command("x.png", false), "img2txt 'x.png'");
    let m = ImagePreviewManager::new(config(), PreviewMethod::NoPreview);
    assert_eq!(m.create_preview_command("x.png", true), "file 'x.png'");
}

#[test]
fn preview_method_detection() {
    let installed = vec!["timg".to_string(), "catimg".to_string()];
    assert!(matches!(
        ImagePreviewManager::detect_preview_method(Some("iTerm.app"), None, false, &installed, false),
        PreviewMethod::ITerm2
    ));
    assert!(matches!(
        ImagePreviewManager::detect_preview_method(None, Some("xterm-kitty"), false, &installed, false),
        PreviewMethod::Kitty
    ));
    match ImagePreviewManager::detect_preview_method(None, Some("xterm"), false, &installed, false) {
        PreviewMethod::External(v) => assert_eq!(v, "catimg"),
        other => panic!("unexpected {:?}", other),
    }
    assert!(matches!(
        ImagePreviewManager::detect_preview_method(None, None, false, &["img2txt".to_string()], false),
        PreviewMethod::ASCII
    ));
    assert!(matches!(
        ImagePreviewManager::detect_preview_method(None, None, false, &[], false),
        PreviewMethod::NoPreview
    ));
    match ImagePreviewManager::detect_preview_method(None, None, false, &[], true) {
        PreviewMethod::External(v) => assert_eq!(v, "qlmanage"),
        other => panic!("unexpected {:?}", other),
    }
}

#[test]
fn viewer_arguments() {
    let l = ImagePreviewManager::external_viewer_launch("chafa", "p.png", Some(40), None);
    assert_eq!(l.args, vec!["--size", "40x20", "--format", "symbols", "p.png"]);
    assert!(!l.detached);
    let l = ImagePreviewManager::external_viewer_launch("timg", "p.png", Some(40), Some(10));
    assert_eq!(l.args, vec!["-g", "40x10", "p.png"]);
    let l = ImagePreviewManager::external_viewer_launch("qlmanage", "p.png", None, None);
    assert_eq!(l.args, vec!["-p", "p.png"]);
    assert!(l.detached);
    assert_eq!(
        ImagePreviewManager::kitty_args("p.png", Some(60), Some(30)),
        vec!["icat", "--cols", "60", "--rows", "30", "p.png"]
    );
    assert_eq!(ImagePreviewManager::sixel_args("p.png", None, Some(3)), vec!["-h", "3", "p.png"]);
    assert_eq!(
        ImagePreviewManager::iterm2_preview_sequence(b"hi", Some(40), None),
        "\x1b]1337;File=inline=1;preserveAspectRatio=1;width=40px;size=2:aGk=\x07"
    );
    assert_eq!(ImagePreviewManager::compact_preview_text("a.png", "", "2 KB"), "🖼️ a.png - 2 KB");
}

fn png_1x1() -> Vec<u8> {
    let img = image::RgbImage::new(1, 1);
    let mut buffer = Vec::new();
    image::DynamicImage::ImageRgb8(img)
        .write_to(&mut std::io::Cursor::new(&mut buffer), image::ImageFormat::Png)
        .unwrap();
    buffer
}

#[test]
fn test_image_format_detection() {
    let processor = ImageProcessor::new(config());
    let image_data = png_1x1();
    assert!(processor.is_supported_format(&image_data));
    let invalid_data = b"not an image";
    assert!(!processor.is_supported_format(invalid_data));
}

#[test]
fn test_image_info() {
    let processor = ImageProcessor::new(config());
    let image_data = png_1x1();
    let info = processor.get_image_info(&image_data).unwrap();
    assert_eq!(info.width, 1);
    assert_eq!(info.height, 1);
    assert_eq!(info.format, "PNG");
    assert!(info.size > 0);
    assert!(processor.get_image_info(b"not an image").is_err());
}

#[test]
fn test_file_size_limit() {
    let mut c = config();
    c.max_file_size = 10;
    let processor = ImageProcessor::new(c);
    assert!(processor.check_image_data(&png_1x1()).is_err());
    assert!(processor.check_image_data(&[]).is_err());
    assert!(processor.check_image_data(&[1, 2, 3]).is_ok());
    assert!(processor.check_file_size(11).is_err());
    assert!(ImageProcessor::needs_resize(4000, 10));
    assert!(!ImageProcessor::needs_resize(3840, 3840));
}

#[test]
fn test_detect_images_in_line() {
    let monitor = StdoutMonitor::new(config()).unwrap();
    let line = "Found image at: /tmp/dir/test.png";
    let found = monitor.image_path_candidates(line, None);
    assert_eq!(found, vec!["/tmp/dir/test.png"]);
    let detected = DetectedImage::file_path(&found[0], line, 1);
    assert_eq!(detected.path, "/tmp/dir/test.png");
    assert!(matches!(detected.source, ImageSource::FilePath));
    assert_eq!(monitor.image_path_candidates("saved ~/shots/a.jpg", Some("/home/u")), vec!["/home/u/shots/a.jpg"]);
    assert!(monitor.image_path_candidates("nothing here.txt", None).is_empty());
}

#[test]
fn tui_table() {
    let monitor = StdoutMonitor::new(config()).unwrap();
    let nvim = monitor.detect_tui_app("/usr/bin/nvim").unwrap();
    assert_eq!(nvim.name, "Neovim");
    assert!(nvim.supports_images);
    assert_eq!(nvim.preview_method, TuiPreviewMethod::Overlay);
    assert_eq!(monitor.detect_tui_app("htop").unwrap().preview_method, TuiPreviewMethod::NoPreview);
    assert!(monitor.detect_tui_app("cargo").is_none());
    assert_eq!(monitor.tui_apps.len(), 13);
    let tig = monitor.detect_tui_app("tig").unwrap();
    assert_eq!(monitor.process_tui_line("\x1b[31mred\x1b[0m", &tig), "red");
    assert_eq!(monitor.process_tui_line("\x1b[31mred\x1b[0m", &nvim), "\x1b[31mred\x1b[0m");
    assert_eq!(monitor.create_monitoring_wrapper("ls"), "(ls) 2>&1 | klipdot monitor-output");
}

#[test]
fn test_live_preview_path_extraction() {
    let system = LivePreviewSystem::new(config());
    let text = "vim /tmp/dir/test.png";
    let cursor_pos = text.len() - 4;
    let detected = system.extract_image_path_at_cursor(text, cursor_pos, None);
    assert_eq!(detected, Some("/tmp/dir/test.png".to_string()));
    assert_eq!(system.extract_image_path_at_cursor("vim notes.txt", 6, None), None);
    assert_eq!(system.extract_image_path_at_cursor("a \"b.png\" c", 4, None), Some("b.png".to_string()));
}

#[test]
fn live_preview_changes() {
    let mut system = LivePreviewSystem::new(config());
    assert!(matches!(system.update(Some("a.png".to_string())), PreviewChange::Show(_)));
    assert!(matches!(system.update(Some("a.png".to_string())), PreviewChange::Keep));
    assert!(matches!(system.update(None), PreviewChange::Hide));
    assert!(matches!(system.update(None), PreviewChange::Keep));
}

#[test]
fn test_preview_manager_creation() {
    let manager = ImagePreviewManager::new(config(), PreviewMethod::Sixel);
    assert!(matches!(manager.preview_method, PreviewMethod::Sixel));
}

#[test]
fn test_image_processor_creation() {
    let processor = ImageProcessor::new(config());
    assert_eq!(processor.config.max_file_size, config().max_file_size);
    assert!(processor.compresses());
    assert!(!processor.reduces_color_depth());
}

#[test]
fn tui_preview_actions() {
    let m = StdoutMonitor::new(config()).unwrap();
    let nvim = m.detect_tui_app("/usr/bin/nvim").unwrap();
    assert_eq!(nvim.name, "Neovim");
    assert!(nvim.escape_sequences.is_empty());
    assert_eq!(StdoutMonitor::tui_preview_action(&nvim), TuiPreviewAction::Preview { width: 80, height: 40 });
    let w3m = m.detect_tui_app("w3m").unwrap();
    assert_eq!(StdoutMonitor::tui_preview_action(&w3m), TuiPreviewAction::Preview { width: 60, height: 30 });
    let mut inline_plain = w3m.clone();
    inline_plain.supports_images = false;
    assert_eq!(StdoutMonitor::tui_preview_action(&inline_plain), TuiPreviewAction::CompactInfo);
    let ranger = m.detect_tui_app("ranger").unwrap();
    assert_eq!(StdoutMonitor::tui_preview_action(&ranger), TuiPreviewAction::Announce);
    let vim = m.detect_tui_app("vim").unwrap();
    assert_eq!(StdoutMonitor::tui_preview_action(&vim), TuiPreviewAction::AnnounceExternal);
    let htop = m.detect_tui_app("htop").unwrap();
    assert_eq!(StdoutMonitor::tui_preview_action(&htop), TuiPreviewAction::LogOnly);
    assert!(m.tui_apps.iter().all(|(_, c)| c.escape_sequences.is_empty()));
}

#[test]
fn format_detection_by_magic_bytes() {
    let processor = ImageProcessor::new(config());
    assert!(processor.is_supported_format(b"GIF89a...."));
    assert!(processor.is_supported_format(b"BM......"));
    assert!(processor.is_supported_format(b"RIFF\x10\x00\x00\x00WEBPVP8 "));
    assert!(processor.is_supported_format(b"P6\n1 1\n255\n"));
    assert!(!processor.is_supported_format(b"RIFF\x10\x00\x00\x00WAVE"));
    assert!(!processor.is_supported_format(b"P8"));
}

#[test]
fn empty_command_is_refused() {
    match StdoutMonitor::check_command(&[]) {
        Err(Error::InvalidInput(m)) => assert_eq!(m, "No command provided"),
        other => panic!("unexpected {:?}", other),
    }
    assert!(StdoutMonitor::check_command(&["ls".to_string()]).is_ok());
}
