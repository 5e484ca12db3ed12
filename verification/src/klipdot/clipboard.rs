//! Clipboard monitoring: telling image data from text on the clipboard,
//! decoding it, and noticing when the clipboard changes. Reading and writing
//! the clipboard through its tools stands outside.

use vstd::prelude::*;

use crate::b64::base64_standard;
use crate::klipdot::base64_codec::{decode, decode_error_text};
use crate::klipdot::config::Config;
use crate::klipdot::error::{recoverable, Error};
use crate::text::{chars_of, push_chars, starts_with, str_starts_with, utf8};

verus! {

/// The PNG file signature.
pub open spec fn png_magic() -> Seq<u8> {
    seq![0x89u8, 0x50u8, 0x4Eu8, 0x47u8, 0x0Du8, 0x0Au8, 0x1Au8, 0x0Au8]
}

/// Whether `d` opens with the signature of a PNG, JPEG, GIF, BMP, WEBP, TIFF
/// or ICO file. Data under four bytes never does.
pub open spec fn image_signature(d: Seq<u8>) -> bool {
    &&& d.len() >= 4
    &&& {
        ||| starts_with(d, png_magic())
        ||| starts_with(d, seq![0xFFu8, 0xD8u8, 0xFFu8])
        ||| starts_with(d, utf8("GIF87a"@))
        ||| starts_with(d, utf8("GIF89a"@))
        ||| starts_with(d, utf8("BM"@))
        ||| (d.len() >= 12 && starts_with(d, utf8("RIFF"@)) && d.subrange(8, 12) == utf8("WEBP"@))
        ||| starts_with(d, seq![0x49u8, 0x49u8, 0x2Au8, 0x00u8])
        ||| starts_with(d, seq![0x4Du8, 0x4Du8, 0x00u8, 0x2Au8])
        ||| starts_with(d, seq![0x00u8, 0x00u8, 0x01u8, 0x00u8])
    }
}

/// Characters that clipboard base64 text is checked for.
pub open spec fn base64_like(c: char) -> bool {
    ||| ('A' <= c && c <= 'Z')
    ||| ('a' <= c && c <= 'z')
    ||| ('0' <= c && c <= '9')
    ||| c == '+'
    ||| c == '/'
    ||| c == '='
}

/// Whether clipboard text is image data: a `data:image/` URL; or over 100
/// bytes of base64 characters that decode to bytes with an image signature;
/// or over 8 bytes whose UTF-8 encoding itself has an image signature.
pub open spec fn image_text(content: Seq<char>) -> bool {
    ||| starts_with(content, "data:image/"@)
    ||| {
        &&& utf8(content).len() > 100
        &&& forall|i: int| 0 <= i < content.len() ==> base64_like(#[trigger] content[i])
        &&& exists|d: Seq<u8>| #[trigger] base64_standard(d) == content && image_signature(d)
    }
    ||| (utf8(content).len() > 8 && image_signature(utf8(content)))
}

/// The base64 text inside clipboard content: what follows the first comma of
/// a `data:image/` URL, otherwise the whole content.
pub open spec fn base64_payload(content: Seq<char>) -> Seq<char> {
    if starts_with(content, "data:image/"@) && content.contains(',') {
        content.skip(content.index_of_first(',')->0 + 1)
    } else {
        content
    }
}

fn bytes_start_with(d: &[u8], p: &[u8]) -> (r: bool)
    ensures
        r == starts_with(d@, p@),
{
    if p.len() > d.len() {
        return false;
    }
    let mut i: usize = 0;
    while i < p.len()
        invariant
            p@.len() <= d@.len(),
            i <= p@.len(),
            forall|k: int| 0 <= k < i ==> d@[k] == p@[k],
        decreases p@.len() - i,
    {
        if d[i] != p[i] {
            assert(d@.subrange(0, p@.len() as int)[i as int] != p@[i as int]);
            return false;
        }
        i += 1;
    }
    assert(d@.subrange(0, p@.len() as int) =~= p@);
    true
}

/// Clipboard monitoring state: the configuration, the last content seen, and
/// whether the polling loop is running.
pub struct ClipboardMonitor {
    pub config: Config,
    pub last_content: Option<String>,
    pub running: bool,
}

/// What one clipboard poll does with the content it read.
#[derive(Debug, Clone, Copy, PartialEq, Eq, Structural)]
pub enum PollAction {
    /// Nothing: the clipboard is empty or unchanged.
    Nothing,
    /// Remember the new content.
    Remember,
    /// Save the new image content, then remember it.
    ProcessImage,
}

impl ClipboardMonitor {
    /// A monitor on `config` that has seen nothing yet and is not running.
    pub fn new(config: Config) -> (m: Self)
        ensures
            m.config == config,
            m.last_content is None,
            !m.running,
    {
        ClipboardMonitor { config, last_content: None, running: false }
    }

    /// Whether clipboard monitoring is switched on in the configuration.
    pub fn enabled(&self) -> (r: bool)
        ensures
            r == self.config.intercept_methods.clipboard,
    {
        self.config.intercept_methods.clipboard
    }

    /// Marks the polling loop as running.
    pub fn start(&mut self)
        ensures
            final(self).running,
            final(self).last_content == old(self).last_content,
    {
        self.running = true;
    }

    /// Stops the polling loop.
    pub fn stop(&mut self)
        ensures
            !final(self).running,
            final(self).last_content == old(self).last_content,
    {
        self.running = false;
    }

    /// The polling interval in milliseconds: the configured one, at most 250.
    pub fn poll_interval(&self) -> (ms: u64)
        ensures
            ms == if self.config.poll_interval < 250 {
                self.config.poll_interval
            } else {
                250
            },
    {
        if self.config.poll_interval < 250 {
            self.config.poll_interval
        } else {
            250
        }
    }

    /// Whether `content` differs from the last content seen.
    pub fn is_new_content(&self, content: &str) -> (r: bool)
        ensures
            r == (self.last_content.deep_view() != Some(content@)),
    {
        match &self.last_content {
            None => true,
            Some(last) => !crate::text::str_eq(last.as_str(), content),
        }
    }

    /// Records `content` as the last content seen, once it was handled.
    pub fn remember(&mut self, content: String)
        ensures
            final(self).last_content == Some(content),
            final(self).running == old(self).running,
    {
        self.last_content = Some(content);
    }

    /// What a poll does with the clipboard content `content` (`None` when the
    /// clipboard gave nothing): unchanged content is left alone, new image
    /// content is processed and remembered, other new content remembered.
    pub fn poll_action(&self, content: Option<&str>) -> (a: PollAction)
        ensures
            a == match content {
                None => PollAction::Nothing,
                Some(c) => if self.last_content.deep_view() == Some(c@) {
                    PollAction::Nothing
                } else if image_text(c@) {
                    PollAction::ProcessImage
                } else {
                    PollAction::Remember
                },
            },
    {
        match content {
            None => PollAction::Nothing,
            Some(c) => if !self.is_new_content(c) {
                PollAction::Nothing
            } else if self.is_image_data(c) {
                PollAction::ProcessImage
            } else {
                PollAction::Remember
            },
        }
    }

    /// The extra pause in milliseconds after a poll failed with `e`: twice
    /// the poll interval when the error is recoverable; `None` when it ends
    /// the polling loop.
    pub fn error_pause(&self, e: &Error) -> (r: Option<u64>)
        ensures
            r == if recoverable(*e) {
                Some(
                    (2 * if self.config.poll_interval < 250 {
                        self.config.poll_interval
                    } else {
                        250
                    }) as u64,
                )
            } else {
                None
            },
    {
        if e.is_recoverable() {
            Some(2 * self.poll_interval())
        } else {
            None
        }
    }

    /// Whether `data` opens with an image file signature.
    pub fn has_image_signature(&self, data: &[u8]) -> (r: bool)
        ensures
            r == image_signature(data@),
    {
        if data.len() < 4 {
            return false;
        }
        let png: [u8; 8] = [0x89, 0x50, 0x4E, 0x47, 0x0D, 0x0A, 0x1A, 0x0A];
        assert(png@ =~= png_magic());
        if bytes_start_with(data, &png) {
            return true;
        }
        let jpeg: [u8; 3] = [0xFF, 0xD8, 0xFF];
        assert(jpeg@ =~= seq![0xFFu8, 0xD8u8, 0xFFu8]);
        if bytes_start_with(data, &jpeg) {
            return true;
        }
        if bytes_start_with(data, "GIF87a".as_bytes()) || bytes_start_with(data, "GIF89a".as_bytes()) {
            return true;
        }
        if bytes_start_with(data, "BM".as_bytes()) {
            return true;
        }
        if data.len() >= 12 && bytes_start_with(data, "RIFF".as_bytes()) {
            let tail = &data[8..12];
            if bytes_start_with(tail, "WEBP".as_bytes()) {
                assert(tail@ == data@.subrange(8, 12));
                proof {
                    reveal_strlit("WEBP");
                    vstd::utf8::is_ascii_chars_encode_utf8("WEBP"@);
                }
                assert(tail@.subrange(0, 4) =~= tail@);
                return true;
            } else {
                proof {
                    reveal_strlit("WEBP");
                    vstd::utf8::is_ascii_chars_encode_utf8("WEBP"@);
                }
                assert(tail@ == data@.subrange(8, 12));
                assert(tail@.subrange(0, 4) =~= tail@);
            }
        }
        let tiff_le: [u8; 4] = [0x49, 0x49, 0x2A, 0x00];
        let tiff_be: [u8; 4] = [0x4D, 0x4D, 0x00, 0x2A];
        assert(tiff_le@ =~= seq![0x49u8, 0x49u8, 0x2Au8, 0x00u8]);
        assert(tiff_be@ =~= seq![0x4Du8, 0x4Du8, 0x00u8, 0x2Au8]);
        if bytes_start_with(data, &tiff_le) || bytes_start_with(data, &tiff_be) {
            return true;
        }
        let ico: [u8; 4] = [0x00, 0x00, 0x01, 0x00];
        assert(ico@ =~= seq![0x00u8, 0x00u8, 0x01u8, 0x00u8]);
        bytes_start_with(data, &ico)
    }

    /// Whether clipboard text is image data (see [`image_text`]).
    pub fn is_image_data(&self, content: &str) -> (r: bool)
        ensures
            r == image_text(content@),
    {
        if str_starts_with(content, "data:image/") {
            return true;
        }
        let bytes = content.as_bytes();
        if bytes.len() > 100 {
            let chars = chars_of(content);
            let mut all = true;
            let mut i: usize = 0;
            while i < chars.len()
                invariant
                    chars@ == content@,
                    i <= chars@.len(),
                    all == forall|k: int| 0 <= k < i ==> base64_like(#[trigger] chars@[k]),
                decreases chars@.len() - i,
            {
                let c = chars[i];
                let ok = ('A' <= c && c <= 'Z') || ('a' <= c && c <= 'z') || ('0' <= c && c <= '9')
                    || c == '+' || c == '/' || c == '=';
                if !ok {
                    all = false;
                }
                i += 1;
            }
            if all {
                match decode(content) {
                    Ok(data) => {
                        if self.has_image_signature(data.as_slice()) {
                            return true;
                        }
                    },
                    Err(_) => {},
                }
            }
        }
        if bytes.len() > 8 && self.has_image_signature(bytes) {
            return true;
        }
        false
    }

    /// The image bytes in clipboard content: the base64 payload of a
    /// `data:image/` URL, or the content itself, decoded. Text that is no
    /// padded standard base64 is a `Format` error.
    pub fn decode_clipboard_image(&self, content: &str) -> (r: Result<Vec<u8>, Error>)
        ensures
            r is Ok <==> exists|d: Seq<u8>| #[trigger] base64_standard(d) == base64_payload(content@),
            r matches Ok(v) ==> base64_standard(v@) == base64_payload(content@),
            r matches Err(e) ==> e is Format,
            r matches Err(Error::Format(m)) ==> starts_with(
                m@,
                if starts_with(content@, "data:image/"@) && content@.contains(',') {
                    "Invalid base64 data: "@
                } else {
                    "Failed to decode image data: "@
                },
            ),
    {
        let chars = chars_of(content);
        if str_starts_with(content, "data:image/") {
            let mut i: usize = 0;
            while i < chars.len()
                invariant
                    chars@ == content@,
                    starts_with(content@, "data:image/"@),
                    i <= chars@.len(),
                    forall|k: int| 0 <= k < i ==> chars@[k] != ',',
                decreases chars@.len() - i,
            {
                if chars[i] == ',' {
                    proof {
                        content@.index_of_first_ensures(',');
                        assert(content@.contains(','));
                        let j = content@.index_of_first(',')->0;
                        assert(j == i);
                    }
                    let mut payload = String::new();
                    push_chars(&mut payload, &chars, i + 1, chars.len());
                    assert(payload@ =~= base64_payload(content@));
                    return match decode(payload.as_str()) {
                        Ok(v) => Ok(v),
                        Err(e) => {
                            let mut m = String::new();
                            m.push_str("Invalid base64 data: ");
                            let ghost pre = m@;
                            m.push_str(decode_error_text(&e).as_str());
                            assert(m@.subrange(0, pre.len() as int) =~= pre);
                            Err(Error::Format(m))
                        },
                    };
                }
                i += 1;
            }
            proof {
                content@.index_of_first_ensures(',');
                if content@.contains(',') {
                    let j = choose|j: int| 0 <= j < content@.len() && content@[j] == ',';
                    assert(chars@[j] == ',');
                }
            }
        }
        match decode(content) {
            Ok(v) => Ok(v),
            Err(e) => {
                let mut m = String::new();
                m.push_str("Failed to decode image data: ");
                let ghost pre = m@;
                m.push_str(decode_error_text(&e).as_str());
                assert(m@.subrange(0, pre.len() as int) =~= pre);
                Err(Error::Format(m))
            },
        }
    }
}

/// Once content is remembered it is no longer new, while any other content
/// still is.
pub proof fn remembered_content_is_not_new(m: ClipboardMonitor, content: String, other: Seq<char>)
    requires
        m.last_content == Some(content),
    ensures
        !(m.last_content.deep_view() != Some(content@)),
        other != content@ ==> m.last_content.deep_view() != Some(other),
{
}

/// The text `String::from_utf8_lossy` makes of bytes: invalid sequences
/// become U+FFFD.
pub uninterp spec fn utf8_lossy(bytes: Seq<u8>) -> Seq<char>;

/// Calls `String::from_utf8_lossy`. The contract claims that the text is
/// `utf8_lossy(bytes)`, and, as its documentation says, that valid UTF-8 is
/// returned as is.
#[verifier::external_body]
fn from_utf8_lossy(bytes: &[u8]) -> (s: String)
    ensures
        s@ == utf8_lossy(bytes@),
        vstd::utf8::valid_utf8(bytes@) ==> s@ == vstd::utf8::decode_utf8(bytes@),
{
    String::from_utf8_lossy(bytes).into_owned()
}

/// Characters of printable ASCII text: graphic characters and ASCII white
/// space.
pub open spec fn plain_text_char(c: char) -> bool {
    ('!' <= c && c <= '~') || c == ' ' || c == '\t' || c == '\n' || c == '\x0C' || c == '\r'
}

/// What the clipboard holds, given a clipboard tool's output: its text; but
/// for `wl-paste` output that is not a data URL and not printable ASCII, the
/// base64 text of the raw bytes (image data). Empty output holds nothing.
pub open spec fn tool_output_text(tool: Seq<char>, out: Seq<u8>) -> Option<Seq<char>> {
    let t = utf8_lossy(out);
    if t.len() == 0 {
        None
    } else if tool == "wl-paste"@ && !starts_with(t, "data:"@) && !(forall|i: int|
        0 <= i < t.len() ==> plain_text_char(#[trigger] t[i])) {
        Some(base64_standard(out))
    } else {
        Some(t)
    }
}

/// The text a clipboard tool printed, as (lossy) UTF-8; nothing when it
/// printed nothing.
pub open spec fn plain_output_text(out: Seq<u8>) -> Option<Seq<char>> {
    if utf8_lossy(out).len() == 0 {
        None
    } else {
        Some(utf8_lossy(out))
    }
}

/// The command line that reads the clipboard through `tool`: `wl-paste`
/// asks for PNG image data (its text is read first, separately), `xclip`
/// and `xsel` print the clipboard selection; other tools are unsupported.
pub open spec fn paste_argv(tool: Seq<char>) -> Option<Seq<Seq<char>>> {
    if tool == "wl-paste"@ {
        Some(seq!["wl-paste"@, "--type"@, "image/png"@])
    } else if tool == "xclip"@ {
        Some(seq!["xclip"@, "-selection"@, "clipboard"@, "-o"@])
    } else if tool == "xsel"@ {
        Some(seq!["xsel"@, "--clipboard"@, "--output"@])
    } else {
        None
    }
}

/// The command line that writes the clipboard through `tool`, reading the
/// text from its standard input; other tools are unsupported.
pub open spec fn copy_argv(tool: Seq<char>) -> Option<Seq<Seq<char>>> {
    if tool == "wl-copy"@ {
        Some(seq!["wl-copy"@, "--type"@, "text/plain"@])
    } else if tool == "xclip"@ {
        Some(seq!["xclip"@, "-selection"@, "clipboard"@])
    } else if tool == "xsel"@ {
        Some(seq!["xsel"@, "--clipboard"@, "--input"@])
    } else {
        None
    }
}

/// `s` with every occurrence of `p` removed, scanning left to right, as
/// `str::replace(p, "")` does.
pub open spec fn removed(s: Seq<char>, p: Seq<char>) -> Seq<char>
    decreases s.len(),
{
    if p.len() == 0 || s.len() == 0 {
        s
    } else if s.len() >= p.len() && s.take(p.len() as int) == p {
        removed(s.skip(p.len() as int), p)
    } else {
        seq![s[0]] + removed(s.drop_first(), p)
    }
}

/// The hexadecimal text inside AppleScript's `«data PNGf…»` output.
pub open spec fn osascript_hex(out: Seq<char>) -> Seq<char> {
    removed(removed(removed(crate::text::trimmed(out), "«data PNGf"@), "»"@), " "@)
}

fn remove_all(s: &str, p: &str) -> (r: String)
    ensures
        r@ == removed(s@, p@),
{
    let c = chars_of(s);
    let q = chars_of(p);
    if q.len() == 0 {
        return s.to_owned();
    }
    let mut r = String::new();
    let mut i: usize = 0;
    assert(c@.skip(0) =~= c@);
    while i < c.len()
        invariant
            c@ == s@,
            q@ == p@,
            q@.len() > 0,
            i <= c@.len(),
            r@ + removed(c@.skip(i as int), q@) == removed(s@, p@),
        decreases c@.len() - i,
    {
        let ghost rest = c@.skip(i as int);
        let mut hit = c.len() - i >= q.len();
        let mut k: usize = 0;
        while hit && k < q.len()
            invariant
                c@ == s@,
                q@ == p@,
                i <= c@.len(),
                hit ==> c@.len() - i >= q@.len(),
                k <= q@.len(),
                hit ==> forall|j: int| 0 <= j < k ==> c@[i + j] == q@[j],
                !hit ==> !(c@.len() - i >= q@.len() && c@.skip(i as int).take(q@.len() as int) == q@),
                c@.len() <= usize::MAX,
            decreases (if hit {
                q@.len() - k + 1
            } else {
                0
            }),
        {
            if c[i + k] != q[k] {
                assert(c@.skip(i as int).take(q@.len() as int)[k as int] != q@[k as int]);
                hit = false;
            } else {
                k += 1;
            }
        }
        if hit {
            assert(rest.take(q@.len() as int) =~= q@);
            assert(rest.skip(q@.len() as int) =~= c@.skip(i + q@.len()));
            i += q.len();
        } else {
            r.push(c[i]);
            assert(rest[0] == c@[i as int]);
            assert(rest.drop_first() =~= c@.skip(i + 1));
            i += 1;
        }
    }
    assert(c@.skip(i as int) =~= Seq::<char>::empty());
    assert(r@ + removed(c@.skip(i as int), q@) =~= r@);
    r
}

impl ClipboardMonitor {
    /// The command line that reads the clipboard through `tool` (see
    /// [`paste_argv`]); an unsupported tool is a `Clipboard` error naming it.
    pub fn paste_command(tool: &str) -> (r: Result<Vec<String>, Error>)
        ensures
            r is Ok <==> paste_argv(tool@) is Some,
            r matches Ok(v) ==> Some(v.deep_view()) == paste_argv(tool@),
            r matches Err(e) ==> e matches Error::Clipboard(m) && m@ == "Unsupported clipboard tool: "@ + tool@,
    {
        if crate::text::str_eq(tool, "wl-paste") {
            Ok(crate::klipdot::owned_strings(&["wl-paste", "--type", "image/png"]))
        } else if crate::text::str_eq(tool, "xclip") {
            Ok(crate::klipdot::owned_strings(&["xclip", "-selection", "clipboard", "-o"]))
        } else if crate::text::str_eq(tool, "xsel") {
            Ok(crate::klipdot::owned_strings(&["xsel", "--clipboard", "--output"]))
        } else {
            let mut m = String::new();
            m.push_str("Unsupported clipboard tool: ");
            m.push_str(tool);
            Err(Error::Clipboard(m))
        }
    }

    /// The command line that writes the clipboard through `tool` (see
    /// [`copy_argv`]); an unsupported tool is a `Clipboard` error naming it.
    pub fn copy_command(tool: &str) -> (r: Result<Vec<String>, Error>)
        ensures
            r is Ok <==> copy_argv(tool@) is Some,
            r matches Ok(v) ==> Some(v.deep_view()) == copy_argv(tool@),
            r matches Err(e) ==> e matches Error::Clipboard(m) && m@ == "Unsupported clipboard tool: "@ + tool@,
    {
        if crate::text::str_eq(tool, "wl-copy") {
            Ok(crate::klipdot::owned_strings(&["wl-copy", "--type", "text/plain"]))
        } else if crate::text::str_eq(tool, "xclip") {
            Ok(crate::klipdot::owned_strings(&["xclip", "-selection", "clipboard"]))
        } else if crate::text::str_eq(tool, "xsel") {
            Ok(crate::klipdot::owned_strings(&["xsel", "--clipboard", "--input"]))
        } else {
            let mut m = String::new();
            m.push_str("Unsupported clipboard tool: ");
            m.push_str(tool);
            Err(Error::Clipboard(m))
        }
    }

    /// The text `wl-paste --type text/plain` printed, if any (see
    /// [`plain_output_text`]).
    pub fn plain_text_from_output(&self, stdout: &[u8]) -> (r: Option<String>)
        ensures
            r.deep_view() == plain_output_text(stdout@),
    {
        let t = from_utf8_lossy(stdout);
        if t.as_str().is_empty() {
            None
        } else {
            Some(t)
        }
    }

    /// What the clipboard holds, given clipboard tool `tool`'s output (see
    /// [`tool_output_text`]).
    pub fn clipboard_text_from_output(&self, tool: &str, stdout: &[u8]) -> (r: Option<String>)
        requires
            crate::b64::base64_len(stdout@.len()) <= usize::MAX,
        ensures
            r.deep_view() == tool_output_text(tool@, stdout@),
    {
        let t = from_utf8_lossy(stdout);
        if t.as_str().is_empty() {
            return None;
        }
        if crate::text::str_eq(tool, "wl-paste") && !str_starts_with(t.as_str(), "data:") {
            let c = chars_of(t.as_str());
            let mut plain = true;
            let mut i: usize = 0;
            while i < c.len()
                invariant
                    c@ == t@,
                    i <= c@.len(),
                    plain == forall|k: int| 0 <= k < i ==> plain_text_char(#[trigger] c@[k]),
                decreases c@.len() - i,
            {
                let ch = c[i];
                if !(('!' <= ch && ch <= '~') || ch == ' ' || ch == '\t' || ch == '\n' || ch == '\x0C' || ch
                    == '\r') {
                    plain = false;
                }
                i += 1;
            }
            if !plain {
                return Some(crate::b64::encode_standard(stdout));
            }
        }
        Some(t)
    }

    /// The PNG bytes in AppleScript's clipboard output: its text trimmed and
    /// stripped of the `«data PNGf`, `»` and space characters, decoded from
    /// hexadecimal, when that works and the bytes have an image signature.
    pub fn png_from_osascript(&self, stdout: &[u8]) -> (r: Option<Vec<u8>>)
        ensures
            r is Some <==> (crate::klipdot::hex_codec::is_hex_text(utf8(osascript_hex(utf8_lossy(stdout@))))
                && image_signature(crate::klipdot::hex_codec::hex_bytes(utf8(osascript_hex(utf8_lossy(stdout@)))))),
            r matches Some(v) ==> v@ == crate::klipdot::hex_codec::hex_bytes(utf8(osascript_hex(utf8_lossy(stdout@)))),
    {
        let t = from_utf8_lossy(stdout);
        let trimmed_chars = crate::text::trim_chars(t.as_str());
        let trimmed = crate::text::string_from_chars(&trimmed_chars);
        let a = remove_all(trimmed.as_str(), "«data PNGf");
        let b = remove_all(a.as_str(), "»");
        let hex = remove_all(b.as_str(), " ");
        match crate::klipdot::hex_codec::decode(hex.as_str()) {
            Ok(data) => {
                if self.has_image_signature(data.as_slice()) {
                    Some(data)
                } else {
                    None
                }
            },
            Err(_) => None,
        }
    }
}

} // verus!
