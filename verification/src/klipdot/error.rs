//! klipdot's error type: what went wrong, its text, its code, and whether
//! it is worth retrying or fatal.

use vstd::prelude::*;

use crate::klipdot::DisplayServer;

verus! {

/// An error of the klipdot daemon. Errors that come from outside libraries
/// (I/O, JSON, images, file watching) carry their message.
#[derive(Debug, Clone)]
pub enum Error {
    /// An I/O failure, with the system's message.
    Io(String),
    /// A JSON (de)serialisation failure, with its message.
    Serialization(String),
    /// An image decoding or encoding failure, with its message.
    Image(String),
    /// A file-watcher failure, with its message.
    FileWatcher(String),
    /// A bad configuration.
    Config(String),
    /// A clipboard tool failed or is missing.
    Clipboard(String),
    /// The background service misbehaved.
    Service(String),
    /// Shell integration failed.
    Shell(String),
    /// A child process failed.
    Process(String),
    /// A network failure.
    Network(String),
    /// Missing permission.
    Permission(String),
    /// An operation timed out.
    Timeout(String),
    /// A value failed validation.
    Validation(String),
    /// Something was not found.
    NotFound(String),
    /// Something already exists.
    AlreadyExists(String),
    /// Invalid input.
    InvalidInput(String),
    /// An unsupported operation.
    Unsupported(String),
    /// An internal error.
    Internal(String),
    /// Text failed to parse.
    Parse(String),
    /// Data had the wrong format.
    Format(String),
    /// A Wayland-specific failure.
    Wayland(String),
    /// A display-server failure.
    DisplayServer(String),
    /// A Wayland compositor failure.
    Compositor(String),
    /// The operation was cancelled.
    Cancelled,
    /// Anything else.
    Unknown(String),
}

/// The text an error's message starts with.
pub open spec fn message_prefix(e: Error) -> Seq<char> {
    match e {
        Error::Io(_) => "IO error: "@,
        Error::Serialization(_) => "Serialization error: "@,
        Error::Image(_) => "Image processing error: "@,
        Error::FileWatcher(_) => "File watcher error: "@,
        Error::Config(_) => "Configuration error: "@,
        Error::Clipboard(_) => "Clipboard error: "@,
        Error::Service(_) => "Service error: "@,
        Error::Shell(_) => "Shell integration error: "@,
        Error::Process(_) => "Process error: "@,
        Error::Network(_) => "Network error: "@,
        Error::Permission(_) => "Permission error: "@,
        Error::Timeout(_) => "Timeout error: "@,
        Error::Validation(_) => "Validation error: "@,
        Error::NotFound(_) => "Not found: "@,
        Error::AlreadyExists(_) => "Already exists: "@,
        Error::InvalidInput(_) => "Invalid input: "@,
        Error::Unsupported(_) => "Unsupported operation: "@,
        Error::Internal(_) => "Internal error: "@,
        Error::Parse(_) => "Parse error: "@,
        Error::Format(_) => "Format error: "@,
        Error::Wayland(_) => "Wayland error: "@,
        Error::DisplayServer(_) => "Display server error: "@,
        Error::Compositor(_) => "Compositor error: "@,
        Error::Cancelled => "Cancelled"@,
        Error::Unknown(_) => "Unknown error: "@,
    }
}

/// The detail an error carries (empty for `Cancelled`).
pub open spec fn message_detail(e: Error) -> Seq<char> {
    match e {
        Error::Io(d) => d@,
        Error::Serialization(d) => d@,
        Error::Image(d) => d@,
        Error::FileWatcher(d) => d@,
        Error::Config(d) => d@,
        Error::Clipboard(d) => d@,
        Error::Service(d) => d@,
        Error::Shell(d) => d@,
        Error::Process(d) => d@,
        Error::Network(d) => d@,
        Error::Permission(d) => d@,
        Error::Timeout(d) => d@,
        Error::Validation(d) => d@,
        Error::NotFound(d) => d@,
        Error::AlreadyExists(d) => d@,
        Error::InvalidInput(d) => d@,
        Error::Unsupported(d) => d@,
        Error::Internal(d) => d@,
        Error::Parse(d) => d@,
        Error::Format(d) => d@,
        Error::Wayland(d) => d@,
        Error::DisplayServer(d) => d@,
        Error::Compositor(d) => d@,
        Error::Cancelled => seq![],
        Error::Unknown(d) => d@,
    }
}

/// The message of an error, as its `Display` text reads.
pub open spec fn message_of(e: Error) -> Seq<char> {
    message_prefix(e) + message_detail(e)
}

/// The short machine-readable code of an error.
pub open spec fn code_of(e: Error) -> Seq<char> {
    match e {
        Error::Io(_) => "IO"@,
        Error::Serialization(_) => "SERIALIZATION"@,
        Error::Image(_) => "IMAGE"@,
        Error::FileWatcher(_) => "FILE_WATCHER"@,
        Error::Config(_) => "CONFIG"@,
        Error::Clipboard(_) => "CLIPBOARD"@,
        Error::Service(_) => "SERVICE"@,
        Error::Shell(_) => "SHELL"@,
        Error::Process(_) => "PROCESS"@,
        Error::Network(_) => "NETWORK"@,
        Error::Permission(_) => "PERMISSION"@,
        Error::Timeout(_) => "TIMEOUT"@,
        Error::Validation(_) => "VALIDATION"@,
        Error::NotFound(_) => "NOT_FOUND"@,
        Error::AlreadyExists(_) => "ALREADY_EXISTS"@,
        Error::InvalidInput(_) => "INVALID_INPUT"@,
        Error::Unsupported(_) => "UNSUPPORTED"@,
        Error::Internal(_) => "INTERNAL"@,
        Error::Parse(_) => "PARSE"@,
        Error::Format(_) => "FORMAT"@,
        Error::Wayland(_) => "WAYLAND"@,
        Error::DisplayServer(_) => "DISPLAY_SERVER"@,
        Error::Compositor(_) => "COMPOSITOR"@,
        Error::Cancelled => "CANCELLED"@,
        Error::Unknown(_) => "UNKNOWN"@,
    }
}

/// Errors worth retrying after a pause.
pub open spec fn recoverable(e: Error) -> bool {
    e is Io
        || e is Clipboard
        || e is Network
        || e is Timeout
        || e is Process
        || e is Wayland
        || e is DisplayServer
        || e is Cancelled
}

/// Errors that stop the daemon.
pub open spec fn fatal(e: Error) -> bool {
    e is Config
        || e is Permission
        || e is Unsupported
        || e is Internal
        || e is Compositor
}

/// Errors that come from the Wayland stack.
pub open spec fn wayland_related(e: Error) -> bool {
    e is Wayland
        || e is DisplayServer
        || e is Compositor
}

impl Error {
    /// Whether the error is worth retrying after a pause.
    pub fn is_recoverable(&self) -> (r: bool)
        ensures
            r == recoverable(*self),
    {
        matches!(self, Error::Io(_) | Error::Clipboard(_) | Error::Network(_) | Error::Timeout(_) | Error::Process(_) | Error::Wayland(_) | Error::DisplayServer(_) | Error::Cancelled)
    }

    /// Whether the error stops the daemon.
    pub fn is_fatal(&self) -> (r: bool)
        ensures
            r == fatal(*self),
    {
        matches!(self, Error::Config(_) | Error::Permission(_) | Error::Unsupported(_) | Error::Internal(_) | Error::Compositor(_))
    }

    /// Whether the error comes from the Wayland stack.
    pub fn is_wayland_related(&self) -> (r: bool)
        ensures
            r == wayland_related(*self),
    {
        matches!(self, Error::Wayland(_) | Error::DisplayServer(_) | Error::Compositor(_))
    }

    /// The short machine-readable code of the error.
    pub fn error_code(&self) -> (r: &'static str)
        ensures
            r@ == code_of(*self),
    {
        match self {
            Error::Io(_) => "IO",
            Error::Serialization(_) => "SERIALIZATION",
            Error::Image(_) => "IMAGE",
            Error::FileWatcher(_) => "FILE_WATCHER",
            Error::Config(_) => "CONFIG",
            Error::Clipboard(_) => "CLIPBOARD",
            Error::Service(_) => "SERVICE",
            Error::Shell(_) => "SHELL",
            Error::Process(_) => "PROCESS",
            Error::Network(_) => "NETWORK",
            Error::Permission(_) => "PERMISSION",
            Error::Timeout(_) => "TIMEOUT",
            Error::Validation(_) => "VALIDATION",
            Error::NotFound(_) => "NOT_FOUND",
            Error::AlreadyExists(_) => "ALREADY_EXISTS",
            Error::InvalidInput(_) => "INVALID_INPUT",
            Error::Unsupported(_) => "UNSUPPORTED",
            Error::Internal(_) => "INTERNAL",
            Error::Parse(_) => "PARSE",
            Error::Format(_) => "FORMAT",
            Error::Wayland(_) => "WAYLAND",
            Error::DisplayServer(_) => "DISPLAY_SERVER",
            Error::Compositor(_) => "COMPOSITOR",
            Error::Cancelled => "CANCELLED",
            Error::Unknown(_) => "UNKNOWN",
        }
    }

    fn prefix(&self) -> (r: &'static str)
        ensures
            r@ == message_prefix(*self),
    {
        match self {
            Error::Io(_) => "IO error: ",
            Error::Serialization(_) => "Serialization error: ",
            Error::Image(_) => "Image processing error: ",
            Error::FileWatcher(_) => "File watcher error: ",
            Error::Config(_) => "Configuration error: ",
            Error::Clipboard(_) => "Clipboard error: ",
            Error::Service(_) => "Service error: ",
            Error::Shell(_) => "Shell integration error: ",
            Error::Process(_) => "Process error: ",
            Error::Network(_) => "Network error: ",
            Error::Permission(_) => "Permission error: ",
            Error::Timeout(_) => "Timeout error: ",
            Error::Validation(_) => "Validation error: ",
            Error::NotFound(_) => "Not found: ",
            Error::AlreadyExists(_) => "Already exists: ",
            Error::InvalidInput(_) => "Invalid input: ",
            Error::Unsupported(_) => "Unsupported operation: ",
            Error::Internal(_) => "Internal error: ",
            Error::Parse(_) => "Parse error: ",
            Error::Format(_) => "Format error: ",
            Error::Wayland(_) => "Wayland error: ",
            Error::DisplayServer(_) => "Display server error: ",
            Error::Compositor(_) => "Compositor error: ",
            Error::Cancelled => "Cancelled",
            Error::Unknown(_) => "Unknown error: ",
        }
    }

    fn detail(&self) -> (r: &str)
        ensures
            r@ == message_detail(*self),
    {
        match self {
            Error::Io(d) => d.as_str(),
            Error::Serialization(d) => d.as_str(),
            Error::Image(d) => d.as_str(),
            Error::FileWatcher(d) => d.as_str(),
            Error::Config(d) => d.as_str(),
            Error::Clipboard(d) => d.as_str(),
            Error::Service(d) => d.as_str(),
            Error::Shell(d) => d.as_str(),
            Error::Process(d) => d.as_str(),
            Error::Network(d) => d.as_str(),
            Error::Permission(d) => d.as_str(),
            Error::Timeout(d) => d.as_str(),
            Error::Validation(d) => d.as_str(),
            Error::NotFound(d) => d.as_str(),
            Error::AlreadyExists(d) => d.as_str(),
            Error::InvalidInput(d) => d.as_str(),
            Error::Unsupported(d) => d.as_str(),
            Error::Internal(d) => d.as_str(),
            Error::Parse(d) => d.as_str(),
            Error::Format(d) => d.as_str(),
            Error::Wayland(d) => d.as_str(),
            Error::DisplayServer(d) => d.as_str(),
            Error::Compositor(d) => d.as_str(),
            Error::Cancelled => {
                proof {
                    reveal_strlit("");
                }
                ""
            },
            Error::Unknown(d) => d.as_str(),
        }
    }

    /// The error's message: what its `Display` text reads, such as
    /// `"Configuration error: <detail>"`.
    pub fn message(&self) -> (r: String)
        ensures
            r@ == message_of(*self),
    {
        let mut s = String::new();
        s.push_str(self.prefix());
        s.push_str(self.detail());
        s
    }

    /// A Wayland-specific error.
    pub fn wayland(msg: &str) -> (r: Self)
        ensures
            r matches Error::Wayland(d) && d@ == msg@,
    {
        Error::Wayland(msg.to_owned())
    }

    /// A display-server error.
    pub fn display_server(msg: &str) -> (r: Self)
        ensures
            r matches Error::DisplayServer(d) && d@ == msg@,
    {
        Error::DisplayServer(msg.to_owned())
    }

    /// A compositor error.
    pub fn compositor(msg: &str) -> (r: Self)
        ensures
            r matches Error::Compositor(d) && d@ == msg@,
    {
        Error::Compositor(msg.to_owned())
    }

    /// A clipboard error naming the display server it happened on:
    /// `"<msg> (<server>)"`.
    pub fn clipboard_with_context(msg: &str, display_server: DisplayServer) -> (r: Self)
        ensures
            r matches Error::Clipboard(d) && d@ == msg@ + " ("@ + server_label(display_server) + ")"@,
    {
        let context = match display_server {
            DisplayServer::Wayland => "Wayland",
            DisplayServer::X11 => "X11",
            DisplayServer::MacOS => "macOS",
            DisplayServer::Unknown => "Unknown",
        };
        let mut d = String::new();
        d.push_str(msg);
        d.push_str(" (");
        d.push_str(context);
        d.push_str(")");
        Error::Clipboard(d)
    }
}

/// How a display server is named in error messages.
pub open spec fn server_label(s: DisplayServer) -> Seq<char> {
    match s {
        DisplayServer::Wayland => "Wayland"@,
        DisplayServer::X11 => "X11"@,
        DisplayServer::MacOS => "macOS"@,
        DisplayServer::Unknown => "Unknown"@,
    }
}

impl From<&str> for Error {
    /// Any other error, from its message.
    fn from(err: &str) -> (r: Self)
        ensures
            r matches Error::Unknown(d) && d@ == err@,
    {
        Error::Unknown(err.to_owned())
    }
}

impl vstd::std_specs::convert::FromSpecImpl<&str> for Error {
    open spec fn obeys_from_spec() -> bool {
        false
    }

    open spec fn from_spec(v: &str) -> Self {
        Error::Cancelled
    }
}

impl From<String> for Error {
    /// Any other error, from its message.
    fn from(err: String) -> (r: Self)
        ensures
            r == Error::Unknown(err),
    {
        Error::Unknown(err)
    }
}

impl vstd::std_specs::convert::FromSpecImpl<String> for Error {
    open spec fn obeys_from_spec() -> bool {
        true
    }

    open spec fn from_spec(v: String) -> Self {
        Error::Unknown(v)
    }
}

/// No error is both worth retrying and fatal, and every error from the Wayland
/// stack but a compositor failure is worth retrying.
pub proof fn recoverable_and_fatal_exclude(e: Error)
    ensures
        !(recoverable(e) && fatal(e)),
        wayland_related(e) && !(e is Compositor) ==> recoverable(e),
        e is Compositor ==> fatal(e),
{
}

} // verus!
