//! The klipdot image-capture daemon's logic: which clipboard and screenshot
//! tools to use, how clipboard content is recognised as image data, shell
//! hook generation, and the parsing of process listings, PID files and logs.
//! Running tools, reading files and watching processes stand outside.

use vstd::prelude::*;

pub mod base64_codec;
pub mod clipboard;
pub mod config;
pub mod error;
pub mod hex_codec;
pub mod image_preview;
pub mod image_processor;
pub mod installer;
pub mod interceptor;
pub mod paths;
pub mod patterns;
pub mod service;
pub mod shell_hooks;
pub mod stdout_monitor;

verus! {

/// The display server a desktop session runs on.
#[derive(Debug, Clone, Copy, PartialEq, Eq, Structural)]
pub enum DisplayServer {
    Wayland,
    X11,
    MacOS,
    Unknown,
}

/// Directory, under klipdot's home, where screenshots are kept.
pub const SCREENSHOT_DIR: &'static str = "screenshots";

/// File name, under klipdot's home, of the configuration.
pub const CONFIG_FILE: &'static str = "config.json";

/// Directory, under klipdot's home, of the shell hooks.
pub const HOOKS_DIR: &'static str = "hooks";

/// File name, under klipdot's home, of the service's PID file.
pub const PID_FILE: &'static str = "klipdot.pid";

/// File name, under klipdot's home, of the service's log.
pub const LOG_FILE: &'static str = "klipdot.log";

/// Default clipboard polling interval, in milliseconds.
pub const DEFAULT_POLL_INTERVAL: u64 = 500;

/// Largest image accepted by default, in bytes (50 MiB).
pub const MAX_FILE_SIZE: u64 = 52428800;

/// Default compression quality of saved images.
pub const IMAGE_QUALITY: u8 = 90;

/// Default age, in days, after which screenshots are cleaned up.
pub const DEFAULT_CLEANUP_DAYS: u32 = 30;

/// `base` joined with the relative name `name` by a `/`, as `Path::join`
/// does for a relative name.
/// Whether no two entries of `s` share a key: a sequence of pairs read as a
/// map.
pub open spec fn keys_distinct<K, V>(s: Seq<(K, V)>) -> bool {
    forall|i: int, j: int| 0 <= i < j < s.len() ==> s[i].0 != s[j].0
}

pub open spec fn join_path(base: Seq<char>, name: Seq<char>) -> Seq<char> {
    if base.len() == 0 {
        name
    } else if base.last() == '/' {
        base + name
    } else {
        base + seq!['/'] + name
    }
}

/// `base` joined with the relative name `name`.
pub fn join(base: &str, name: &str) -> (r: String)
    ensures
        r@ == join_path(base@, name@),
{
    let mut r = String::new();
    r.push_str(base);
    let b = crate::text::chars_of(base);
    if b.len() > 0 && b[b.len() - 1] != '/' {
        r.push('/');
    }
    r.push_str(name);
    r
}

/// Owned copies of the strings `items`, in order.
pub fn owned_strings(items: &[&str]) -> (v: Vec<String>)
    ensures
        v.deep_view() == items@.map_values(|s: &str| s@),
{
    let mut v: Vec<String> = Vec::new();
    let mut i: usize = 0;
    while i < items.len()
        invariant
            i <= items@.len(),
            v.deep_view() == items@.take(i as int).map_values(|s: &str| s@),
        decreases items@.len() - i,
    {
        let ghost before = v.deep_view();
        v.push(items[i].to_owned());
        assert(v.deep_view() =~= items@.take(i + 1).map_values(|s: &str| s@)) by {
            assert(v.deep_view() =~= before.push(items@[i as int]@));
        }
        i += 1;
    }
    assert(items@.take(items@.len() as int) =~= items@);
    v
}

/// The Unicode lowercase mapping of a string, as `str::to_lowercase` computes
/// it.
pub uninterp spec fn lowercase(s: Seq<char>) -> Seq<char>;

/// The ASCII lowercase of `c`: `A` to `Z` become `a` to `z`, every other
/// character stays.
pub open spec fn ascii_lower(c: char) -> char {
    if 'A' <= c <= 'Z' {
        ((c as u32) + 32) as char
    } else {
        c
    }
}

/// Calls `str::to_lowercase`. The contract claims that the result is
/// `lowercase(s)`, a function of `s` alone, and that on ASCII text it is the
/// ASCII lowercase, character by character (Unicode maps ASCII letters to
/// ASCII letters and leaves other ASCII alone); the Unicode case tables are
/// not written out.
#[verifier::external_body]
pub(crate) fn to_lowercase(s: &str) -> (r: String)
    ensures
        r@ == lowercase(s@),
        (forall|i: int| 0 <= i < s@.len() ==> (#[trigger] s@[i] as u32) < 128) ==> r@ == s@.map_values(
            |c: char| ascii_lower(c),
        ),
{
    s.to_lowercase()
}

} // verus!
