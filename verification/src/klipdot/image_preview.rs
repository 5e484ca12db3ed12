//! Terminal image previews: which preview method a terminal gets, the
//! commands and escape sequences each method runs or prints, and how image
//! dimensions are read from `file`'s output. Running viewers and printing
//! stand outside.

use vstd::prelude::*;

use crate::b64::{base64_len, base64_standard};
use crate::klipdot::config::{contains_in, Config};
use crate::klipdot::patterns::{compile, group_texts, regex_compiles, regex_group_texts};
use crate::text::{contains, decimal, push_decimal, str_contains, str_eq};

verus! {

/// How images are previewed.
#[derive(Debug, Clone)]
pub enum PreviewMethod {
    /// iTerm2 inline images protocol.
    ITerm2,
    /// Kitty graphics protocol.
    Kitty,
    /// Sixel graphics protocol.
    Sixel,
    /// ASCII art.
    ASCII,
    /// An external viewer command.
    External(String),
    /// No preview.
    NoPreview,
}

/// The character-sequence view of a preview method.
pub open spec fn method_view(m: PreviewMethod) -> (nat, Seq<char>) {
    match m {
        PreviewMethod::ITerm2 => (0, seq![]),
        PreviewMethod::Kitty => (1, seq![]),
        PreviewMethod::Sixel => (2, seq![]),
        PreviewMethod::ASCII => (3, seq![]),
        PreviewMethod::External(v) => (4, v@),
        PreviewMethod::NoPreview => (5, seq![]),
    }
}

/// External viewers, in order of preference.
pub open spec fn preferred_viewers() -> Seq<Seq<char>> {
    seq!["imgcat"@, "chafa"@, "catimg"@, "timg"@, "qlmanage"@, "open"@]
}

/// The preview method a terminal gets, given `TERM_PROGRAM`, `TERM`, whether
/// it answered the sixel probe, and the installed commands: iTerm2 on iTerm2;
/// QuickLook on Apple's Terminal; Kitty when `TERM` mentions kitty; Sixel;
/// the first installed viewer; ASCII art when `jp2a` or `img2txt` is
/// installed; otherwise QuickLook on macOS (`macos`) and none elsewhere.
pub open spec fn chosen_method(
    term_program: Option<Seq<char>>,
    term: Option<Seq<char>>,
    sixel: bool,
    installed: Seq<Seq<char>>,
    macos: bool,
) -> (nat, Seq<char>) {
    if term_program == Some("iTerm.app"@) {
        (0, seq![])
    } else if term_program == Some("Apple_Terminal"@) {
        (4, "qlmanage"@)
    } else if term matches Some(t) && contains(t, "kitty"@) {
        (1, seq![])
    } else if sixel {
        (2, seq![])
    } else if exists|i: int| 0 <= i < preferred_viewers().len() && installed.contains(#[trigger] preferred_viewers()[i]) {
        (4, preferred_viewers()[first_installed(preferred_viewers(), installed)])
    } else if installed.contains("jp2a"@) || installed.contains("img2txt"@) {
        (3, seq![])
    } else if macos {
        (4, "qlmanage"@)
    } else {
        (5, seq![])
    }
}

/// Index of the first of `names` that is installed.
pub open spec fn first_installed(names: Seq<Seq<char>>, installed: Seq<Seq<char>>) -> int
    decreases names.len(),
{
    if names.len() == 0 || installed.contains(names[0]) {
        0
    } else {
        1 + first_installed(names.drop_first(), installed)
    }
}

/// Arguments and launch mode of an external viewer: `detached` viewers are
/// started in the background.
#[derive(Debug, Clone)]
pub struct ViewerLaunch {
    pub args: Vec<String>,
    pub detached: bool,
}

/// `"<w>x<h>"`.
pub open spec fn size_text(w: nat, h: nat) -> Seq<char> {
    decimal(w) + "x"@ + decimal(h)
}

/// The arguments an external viewer is run with for `path`.
pub open spec fn viewer_args(viewer: Seq<char>, path: Seq<char>, w: Option<u32>, h: Option<u32>) -> Seq<
    Seq<char>,
> {
    if viewer == "catimg"@ {
        match w {
            Some(x) => seq!["-w"@, decimal(x as nat), path],
            None => seq![path],
        }
    } else if viewer == "timg"@ {
        match w {
            Some(x) => seq![
                "-g"@,
                size_text(
                    x as nat,
                    match h {
                        Some(y) => y as nat,
                        None => x as nat,
                    },
                ),
                path,
            ],
            None => seq![path],
        }
    } else if viewer == "chafa"@ {
        match w {
            Some(x) => seq![
                "--size"@,
                size_text(
                    x as nat,
                    match h {
                        Some(y) => y as nat,
                        None => (x / 2) as nat,
                    },
                ),
                "--format"@,
                "symbols"@,
                path,
            ],
            None => seq!["--size"@, "80x40"@, "--format"@, "symbols"@, path],
        }
    } else if viewer == "qlmanage"@ {
        seq!["-p"@, path]
    } else {
        seq![path]
    }
}

/// `--flag <n>` pairs for the sizes that are given.
pub open spec fn size_flags(wflag: Seq<char>, w: Option<u32>, hflag: Seq<char>, h: Option<u32>) -> Seq<
    Seq<char>,
> {
    (match w {
        Some(x) => seq![wflag, decimal(x as nat)],
        None => seq![],
    }) + match h {
        Some(y) => seq![hflag, decimal(y as nat)],
        None => seq![],
    }
}

/// The iTerm2 inline-image escape sequence for image bytes `data`.
pub open spec fn iterm2_sequence(data: Seq<u8>, w: Option<u32>, h: Option<u32>) -> Seq<char> {
    "\x1b]1337;File=inline=1;preserveAspectRatio=1"@ + (match w {
        Some(x) => ";width="@ + decimal(x as nat) + "px"@,
        None => seq![],
    }) + (match h {
        Some(y) => ";height="@ + decimal(y as nat) + "px"@,
        None => seq![],
    }) + ";size="@ + decimal(data.len()) + ":"@ + base64_standard(data) + "\x07"@
}

/// The pattern of a `<width> x <height>` figure in `file`'s output.
pub const DIMENSIONS_PATTERN: &'static str = r"(\d+)\s*[x×]\s*(\d+)";

/// The dimensions in `file`'s output: `"<w>x<h>"` from the first match of
/// the dimensions pattern.
pub open spec fn dimensions_in(output: Seq<char>) -> Option<Seq<char>> {
    let g1 = regex_group_texts(DIMENSIONS_PATTERN@, output, 1);
    let g2 = regex_group_texts(DIMENSIONS_PATTERN@, output, 2);
    if regex_compiles(DIMENSIONS_PATTERN@) && g1.len() > 0 && g2.len() > 0 && g1[0] is Some && g2[0] is Some {
        Some(g1[0]->0 + "x"@ + g2[0]->0)
    } else {
        None
    }
}

fn push_u32(out: &mut Vec<String>, n: u32)
    ensures
        final(out).deep_view() == old(out).deep_view().push(decimal(n as nat)),
{
    let mut s = String::new();
    push_decimal(&mut s, n as u64);
    let ghost before = out.deep_view();
    out.push(s);
    assert(out.deep_view() =~= before.push(decimal(n as nat)));
}

fn push_text(out: &mut Vec<String>, t: &str)
    ensures
        final(out).deep_view() == old(out).deep_view().push(t@),
{
    let ghost before = out.deep_view();
    out.push(t.to_owned());
    assert(out.deep_view() =~= before.push(t@));
}

fn size_string(w: u32, h: u32) -> (s: String)
    ensures
        s@ == size_text(w as nat, h as nat),
{
    let mut s = String::new();
    push_decimal(&mut s, w as u64);
    s.push('x');
    push_decimal(&mut s, h as u64);
    proof {
        reveal_strlit("x");
    }
    s
}

/// The padded standard base64 text of `data`.
pub fn encode(data: &[u8]) -> (s: String)
    requires
        base64_len(data@.len()) <= usize::MAX,
    ensures
        s@ == base64_standard(data@),
{
    crate::b64::encode_standard(data)
}

/// Shows images in the terminal by the method it supports.
#[derive(Debug, Clone)]
pub struct ImagePreviewManager {
    pub config: Config,
    pub preview_method: PreviewMethod,
}

impl ImagePreviewManager {
    /// A manager previewing by `preview_method`.
    pub fn new(config: Config, preview_method: PreviewMethod) -> (m: Self)
        ensures
            method_view(m.preview_method) == method_view(preview_method),
    {
        ImagePreviewManager { config, preview_method }
    }

    /// The preview method for a terminal (see [`chosen_method`]).
    pub fn detect_preview_method(
        term_program: Option<&str>,
        term: Option<&str>,
        sixel: bool,
        installed: &[String],
        macos: bool,
    ) -> (m: PreviewMethod)
        ensures
            method_view(m) == chosen_method(
                match term_program {
                    Some(t) => Some(t@),
                    None => None,
                },
                match term {
                    Some(t) => Some(t@),
                    None => None,
                },
                sixel,
                installed.deep_view(),
                macos,
            ),
    {
        if let Some(tp) = term_program {
            if str_eq(tp, "iTerm.app") {
                return PreviewMethod::ITerm2;
            }
            if str_eq(tp, "Apple_Terminal") {
                return PreviewMethod::External("qlmanage".to_owned());
            }
        }
        if let Some(t) = term {
            if str_contains(t, "kitty") {
                return PreviewMethod::Kitty;
            }
        }
        if sixel {
            return PreviewMethod::Sixel;
        }
        let viewers = crate::klipdot::owned_strings(&["imgcat", "chafa", "catimg", "timg", "qlmanage", "open"]);
        assert(viewers.deep_view() =~= preferred_viewers());
        let mut i: usize = 0;
        assert(preferred_viewers().skip(0) =~= preferred_viewers());
        while i < viewers.len() && !contains_in(installed, viewers[i].as_str())
            invariant
                i <= viewers@.len(),
                viewers.deep_view() == preferred_viewers(),
                forall|k: int| 0 <= k < i ==> !installed.deep_view().contains(#[trigger] preferred_viewers()[k]),
                first_installed(preferred_viewers(), installed.deep_view()) == i + first_installed(
                    preferred_viewers().skip(i as int),
                    installed.deep_view(),
                ),
            decreases viewers@.len() - i,
        {
            assert(preferred_viewers().skip(i as int)[0] == preferred_viewers()[i as int]);
            assert(preferred_viewers().skip(i as int).drop_first() =~= preferred_viewers().skip(i + 1));
            i += 1;
        }
        if i < viewers.len() {
            assert(preferred_viewers().skip(i as int)[0] == preferred_viewers()[i as int]);
            assert(installed.deep_view().contains(preferred_viewers()[i as int]));
            assert(first_installed(preferred_viewers().skip(i as int), installed.deep_view()) == 0);
            return PreviewMethod::External(viewers[i].clone());
        }
        assert(!(exists|k: int| 0 <= k < preferred_viewers().len() && installed.deep_view().contains(
            #[trigger] preferred_viewers()[k],
        )));
        if contains_in(installed, "jp2a") || contains_in(installed, "img2txt") {
            return PreviewMethod::ASCII;
        }
        if macos {
            return PreviewMethod::External("qlmanage".to_owned());
        }
        PreviewMethod::NoPreview
    }

    /// The shell command that previews `image_path` later: through klipdot
    /// for the graphics protocols, the viewer itself, `jp2a` (when installed)
    /// or `img2txt` for ASCII art, and `file` without a preview.
    pub fn create_preview_command(&self, image_path: &str, jp2a_installed: bool) -> (c: String)
        ensures
            c@ == match self.preview_method {
                PreviewMethod::ITerm2 | PreviewMethod::Kitty | PreviewMethod::Sixel => "klipdot preview '"@
                    + image_path@ + "'"@,
                PreviewMethod::External(v) => v@ + " '"@ + image_path@ + "'"@,
                PreviewMethod::ASCII => if jp2a_installed {
                    "jp2a --colors '"@ + image_path@ + "'"@
                } else {
                    "img2txt '"@ + image_path@ + "'"@
                },
                PreviewMethod::NoPreview => "file '"@ + image_path@ + "'"@,
            },
    {
        let mut c = String::new();
        match &self.preview_method {
            PreviewMethod::ITerm2 | PreviewMethod::Kitty | PreviewMethod::Sixel => {
                c.push_str("klipdot preview '");
            },
            PreviewMethod::External(v) => {
                c.push_str(v.as_str());
                c.push_str(" '");
            },
            PreviewMethod::ASCII => {
                if jp2a_installed {
                    c.push_str("jp2a --colors '");
                } else {
                    c.push_str("img2txt '");
                }
            },
            PreviewMethod::NoPreview => {
                c.push_str("file '");
            },
        }
        c.push_str(image_path);
        c.push_str("'");
        c
    }

    /// How an external viewer previews `image_path` within the given size:
    /// its arguments, and whether it runs detached (QuickLook and `open`).
    pub fn external_viewer_launch(
        viewer: &str,
        image_path: &str,
        max_width: Option<u32>,
        max_height: Option<u32>,
    ) -> (l: ViewerLaunch)
        ensures
            l.args.deep_view() == viewer_args(viewer@, image_path@, max_width, max_height),
            l.detached == (viewer@ == "qlmanage"@ || viewer@ == "open"@),
    {
        let mut args: Vec<String> = Vec::new();
        if str_eq(viewer, "catimg") {
            if let Some(w) = max_width {
                push_text(&mut args, "-w");
                push_u32(&mut args, w);
            }
            push_text(&mut args, image_path);
        } else if str_eq(viewer, "timg") {
            if let Some(w) = max_width {
                push_text(&mut args, "-g");
                let h = match max_height {
                    Some(h) => h,
                    None => w,
                };
                let ghost before = args.deep_view();
                args.push(size_string(w, h));
                assert(args.deep_view() =~= before.push(size_text(w as nat, h as nat)));
            }
            push_text(&mut args, image_path);
        } else if str_eq(viewer, "chafa") {
            push_text(&mut args, "--size");
            if let Some(w) = max_width {
                let h = match max_height {
                    Some(h) => h,
                    None => w / 2,
                };
                let ghost before = args.deep_view();
                args.push(size_string(w, h));
                assert(args.deep_view() =~= before.push(size_text(w as nat, h as nat)));
            } else {
                push_text(&mut args, "80x40");
            }
            push_text(&mut args, "--format");
            push_text(&mut args, "symbols");
            push_text(&mut args, image_path);
        } else if str_eq(viewer, "qlmanage") {
            push_text(&mut args, "-p");
            push_text(&mut args, image_path);
        } else {
            push_text(&mut args, image_path);
        }
        let detached = str_eq(viewer, "qlmanage") || str_eq(viewer, "open");
        assert(args.deep_view() =~= viewer_args(viewer@, image_path@, max_width, max_height));
        ViewerLaunch { args, detached }
    }

    /// Arguments of `kitten icat` for `image_path` within the given size.
    pub fn kitty_args(image_path: &str, max_width: Option<u32>, max_height: Option<u32>) -> (a: Vec<String>)
        ensures
            a.deep_view() == seq!["icat"@] + size_flags("--cols"@, max_width, "--rows"@, max_height) + seq![
                image_path@,
            ],
    {
        let mut a: Vec<String> = Vec::new();
        push_text(&mut a, "icat");
        size_args(&mut a, "--cols", max_width, "--rows", max_height);
        push_text(&mut a, image_path);
        assert(a.deep_view() =~= seq!["icat"@] + size_flags("--cols"@, max_width, "--rows"@, max_height)
            + seq![image_path@]);
        a
    }

    /// Arguments of `img2sixel` for `image_path` within the given size.
    pub fn sixel_args(image_path: &str, max_width: Option<u32>, max_height: Option<u32>) -> (a: Vec<String>)
        ensures
            a.deep_view() == size_flags("-w"@, max_width, "-h"@, max_height) + seq![image_path@],
    {
        let mut a: Vec<String> = Vec::new();
        size_args(&mut a, "-w", max_width, "-h", max_height);
        push_text(&mut a, image_path);
        assert(a.deep_view() =~= size_flags("-w"@, max_width, "-h"@, max_height) + seq![image_path@]);
        a
    }

    /// Arguments of `jp2a` for `image_path` within the given size.
    pub fn jp2a_args(image_path: &str, max_width: Option<u32>, max_height: Option<u32>) -> (a: Vec<String>)
        ensures
            a.deep_view() == seq!["--colors"@] + size_flags("--width"@, max_width, "--height"@, max_height)
                + seq![image_path@],
    {
        let mut a: Vec<String> = Vec::new();
        push_text(&mut a, "--colors");
        size_args(&mut a, "--width", max_width, "--height", max_height);
        push_text(&mut a, image_path);
        assert(a.deep_view() =~= seq!["--colors"@] + size_flags("--width"@, max_width, "--height"@, max_height)
            + seq![image_path@]);
        a
    }

    /// Arguments of `img2txt` for `image_path` within the given size.
    pub fn img2txt_args(image_path: &str, max_width: Option<u32>, max_height: Option<u32>) -> (a: Vec<String>)
        ensures
            a.deep_view() == size_flags("-W"@, max_width, "-H"@, max_height) + seq![image_path@],
    {
        let mut a: Vec<String> = Vec::new();
        size_args(&mut a, "-W", max_width, "-H", max_height);
        push_text(&mut a, image_path);
        assert(a.deep_view() =~= size_flags("-W"@, max_width, "-H"@, max_height) + seq![image_path@]);
        a
    }

    /// The iTerm2 inline-image escape sequence showing image bytes `data`
    /// within the given size.
    pub fn iterm2_preview_sequence(data: &[u8], max_width: Option<u32>, max_height: Option<u32>) -> (s: String)
        requires
            base64_len(data@.len()) <= usize::MAX,
        ensures
            s@ == iterm2_sequence(data@, max_width, max_height),
    {
        let mut s = String::new();
        s.push_str("\x1b]1337;File=inline=1;preserveAspectRatio=1");
        let ghost a = s@;
        if let Some(w) = max_width {
            s.push_str(";width=");
            push_decimal(&mut s, w as u64);
            s.push_str("px");
        }
        let ghost b = s@;
        if let Some(h) = max_height {
            s.push_str(";height=");
            push_decimal(&mut s, h as u64);
            s.push_str("px");
        }
        s.push_str(";size=");
        push_decimal(&mut s, data.len() as u64);
        s.push_str(":");
        s.push_str(encode(data).as_str());
        s.push_str("\x07");
        s
    }

    /// The dimensions in `file`'s output (see [`dimensions_in`]).
    pub fn parse_file_dimensions(file_output: &str) -> (r: Option<String>)
        ensures
            r.deep_view() == dimensions_in(file_output@),
    {
        let p = match compile(DIMENSIONS_PATTERN) {
            Ok(p) => p,
            Err(_) => {
                return None;
            },
        };
        let g1 = group_texts(&p, file_output, 1);
        let g2 = group_texts(&p, file_output, 2);
        if g1.len() == 0 || g2.len() == 0 {
            return None;
        }
        match (&g1[0], &g2[0]) {
            (Some(w), Some(h)) => {
                let mut s = String::new();
                s.push_str(w.as_str());
                s.push('x');
                s.push_str(h.as_str());
                proof {
                    reveal_strlit("x");
                }
                assert(g1.deep_view()[0] == Some(w@));
                assert(g2.deep_view()[0] == Some(h@));
                Some(s)
            },
            _ => {
                assert(g1.deep_view()[0] == match g1@[0] {
                    Some(x) => Some(x@),
                    None => None,
                });
                assert(g2.deep_view()[0] == match g2@[0] {
                    Some(x) => Some(x@),
                    None => None,
                });
                None
            },
        }
    }

    /// The one-line preview: `🖼️ <name>`, then ` (<dimensions>)` when known,
    /// then ` - <size>`.
    pub fn compact_preview_text(file_name: &str, dimensions: &str, size_text: &str) -> (s: String)
        ensures
            s@ == "🖼️ "@ + file_name@ + (if dimensions@.len() > 0 {
                " ("@ + dimensions@ + ")"@
            } else {
                seq![]
            }) + " - "@ + size_text@,
    {
        let mut s = String::new();
        s.push_str("🖼️ ");
        s.push_str(file_name);
        let ghost a = s@;
        if !dimensions.is_empty() {
            s.push_str(" (");
            s.push_str(dimensions);
            s.push_str(")");
        } else {
            assert(s@ =~= a + Seq::<char>::empty());
        }
        s.push_str(" - ");
        s.push_str(size_text);
        s
    }
}

fn size_args(a: &mut Vec<String>, wflag: &str, w: Option<u32>, hflag: &str, h: Option<u32>)
    ensures
        final(a).deep_view() == old(a).deep_view() + size_flags(wflag@, w, hflag@, h),
{
    let ghost start = a.deep_view();
    if let Some(x) = w {
        push_text(a, wflag);
        push_u32(a, x);
    }
    let ghost mid = a.deep_view();
    if let Some(y) = h {
        push_text(a, hflag);
        push_u32(a, y);
    }
    assert(a.deep_view() =~= start + size_flags(wflag@, w, hflag@, h));
}

} // verus!
