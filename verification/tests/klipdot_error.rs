//! klipdot error classification and messages.

use rck_core::klipdot::error::Error;
use rck_core::klipdot::DisplayServer;

#[test]
fn test_error_properties() {
    let io_error = Error::Io("file not found".to_string());
    assert!(io_error.is_recoverable());
    assert!(!io_error.is_fatal());
    assert_eq!(io_error.error_code(), "IO");

    let config_error = Error::Config("invalid config".to_string());
    assert!(!config_error.is_recoverable());
    assert!(config_error.is_fatal());
    assert_eq!(config_error.error_code(), "CONFIG");
}

#[test]
fn test_error_from_string() {
    let error = Error::from("test error");
    assert_eq!(error.error_code(), "UNKNOWN");
    assert!(error.message().contains("test error"));
}

#[test]
fn error_messages_and_context() {
    assert_eq!(Error::Config("bad".to_string()).message(), "Configuration error: bad");
    assert_eq!(Error::Cancelled.message(), "Cancelled");
    assert_eq!(Error::Cancelled.error_code(), "CANCELLED");
    assert!(Error::Cancelled.is_recoverable());
    let e = Error::clipboard_with_context("no tool", DisplayServer::MacOS);
    assert_eq!(e.message(), "Clipboard error: no tool (macOS)");
    assert!(Error::wayland("x").is_wayland_related());
    assert!(Error::compositor("x").is_fatal());
    assert!(Error::display_server("x").is_recoverable());
    assert!(!Error::from(String::from("y")).is_wayland_related());
}
