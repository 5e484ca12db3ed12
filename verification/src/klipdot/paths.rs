//! File names and extensions of plain `/`-separated paths, and which of
//! them name images.

use vstd::prelude::*;

use crate::klipdot::{lowercase, to_lowercase};
use crate::text::{chars_of, push_chars, str_eq};

verus! {

/// The length of `p` without its trailing `/`s.
pub open spec fn trimmed_len(p: Seq<char>) -> nat
    decreases p.len(),
{
    if p.len() > 0 && p.last() == '/' {
        trimmed_len(p.drop_last())
    } else {
        p.len()
    }
}

/// Index where the last component of `p[..end]` starts: just after its last
/// `/`, or 0.
pub open spec fn component_start(p: Seq<char>, end: int) -> int
    decreases end,
{
    if end <= 0 {
        0
    } else if p[end - 1] == '/' {
        end
    } else {
        component_start(p, end - 1)
    }
}

/// The last component of a path, trailing `/`s ignored; `None` when it is
/// empty, `.` or `..` (as `Path::file_name` reads such paths).
pub open spec fn file_name_of(p: Seq<char>) -> Option<Seq<char>> {
    let end = trimmed_len(p) as int;
    let name = p.subrange(component_start(p, end), end);
    if name.len() == 0 || name == "."@ || name == ".."@ {
        None
    } else {
        Some(name)
    }
}

/// Index of the last `.` in `n[..end]`, if any.
pub open spec fn last_dot(n: Seq<char>, end: int) -> Option<int>
    decreases end,
{
    if end <= 0 {
        None
    } else if n[end - 1] == '.' {
        Some(end - 1)
    } else {
        last_dot(n, end - 1)
    }
}

/// The extension of a path: what follows the last `.` of its file name,
/// unless that dot opens the name.
pub open spec fn extension_of(p: Seq<char>) -> Option<Seq<char>> {
    match file_name_of(p) {
        None => None,
        Some(n) => match last_dot(n, n.len() as int) {
            Some(i) => if i > 0 {
                Some(n.skip(i + 1))
            } else {
                None
            },
            None => None,
        },
    }
}

/// Extensions (in lowercase) of the image files klipdot recognises.
pub open spec fn image_extension(e: Seq<char>) -> bool {
    ||| e == "png"@
    ||| e == "jpg"@
    ||| e == "jpeg"@
    ||| e == "gif"@
    ||| e == "bmp"@
    ||| e == "webp"@
    ||| e == "svg"@
    ||| e == "tiff"@
    ||| e == "tif"@
    ||| e == "ico"@
}

/// Whether a path names an image file by its extension (in lowercase).
pub open spec fn image_path(p: Seq<char>) -> bool {
    extension_of(p) matches Some(e) && image_extension(lowercase(e))
}

proof fn lemma_component_start(p: Seq<char>, end: int)
    requires
        0 <= end <= p.len(),
    ensures
        0 <= component_start(p, end) <= end,
        forall|k: int| component_start(p, end) <= k < end ==> p[k] != '/',
        component_start(p, end) > 0 ==> p[component_start(p, end) - 1] == '/',
    decreases end,
{
    if end > 0 && p[end - 1] != '/' {
        lemma_component_start(p, end - 1);
    }
}

proof fn lemma_last_dot(n: Seq<char>, end: int)
    requires
        0 <= end <= n.len(),
    ensures
        last_dot(n, end) matches Some(i) ==> 0 <= i < end && n[i] == '.' && forall|k: int|
            i < k < end ==> n[k] != '.',
        last_dot(n, end) is None ==> forall|k: int| 0 <= k < end ==> n[k] != '.',
    decreases end,
{
    if end > 0 && n[end - 1] != '.' {
        lemma_last_dot(n, end - 1);
    }
}

/// The file name of a path (see [`file_name_of`]).
pub fn file_name(path: &str) -> (r: Option<String>)
    ensures
        r.deep_view() == file_name_of(path@),
{
    let p = chars_of(path);
    let mut end: usize = p.len();
    assert(p@.subrange(0, end as int) =~= p@);
    while end > 0 && p[end - 1] == '/'
        invariant
            p@ == path@,
            end <= p@.len(),
            trimmed_len(p@) == trimmed_len(p@.subrange(0, end as int)),
        decreases end,
    {
        assert(p@.subrange(0, end - 1) =~= p@.subrange(0, end as int).drop_last());
        end -= 1;
    }
    assert(trimmed_len(p@.subrange(0, end as int)) == end);
    let mut start: usize = end;
    while start > 0 && p[start - 1] != '/'
        invariant
            p@ == path@,
            start <= end <= p@.len(),
            component_start(p@, end as int) == component_start(p@, start as int),
        decreases start,
    {
        start -= 1;
    }
    assert(component_start(p@, start as int) == start);
    let mut name = String::new();
    push_chars(&mut name, &p, start, end);
    assert(name@ == p@.subrange(start as int, end as int));
    if name.as_str().is_empty() || str_eq(name.as_str(), ".") || str_eq(name.as_str(), "..") {
        None
    } else {
        Some(name)
    }
}

/// The extension of a path (see [`extension_of`]).
pub fn extension(path: &str) -> (r: Option<String>)
    ensures
        r.deep_view() == extension_of(path@),
{
    match file_name(path) {
        None => None,
        Some(n) => {
            let c = chars_of(n.as_str());
            let mut i: usize = c.len();
            while i > 0 && c[i - 1] != '.'
                invariant
                    c@ == n@,
                    i <= c@.len(),
                    last_dot(c@, c@.len() as int) == last_dot(c@, i as int),
                decreases i,
            {
                i -= 1;
            }
            if i > 1 {
                assert(last_dot(c@, i as int) == Some(i - 1));
                let mut e = String::new();
                push_chars(&mut e, &c, i, c.len());
                assert(e@ =~= n@.skip(i as int));
                Some(e)
            } else {
                None
            }
        },
    }
}

/// Whether a path names an image file: its extension, in lowercase, is one
/// of `png`, `jpg`, `jpeg`, `gif`, `bmp`, `webp`, `svg`, `tiff`, `tif` or
/// `ico`.
pub fn is_image_file(path: &str) -> (r: bool)
    ensures
        r == image_path(path@),
{
    match extension(path) {
        None => false,
        Some(e) => {
            let lower = to_lowercase(e.as_str());
            let l = lower.as_str();
            str_eq(l, "png") || str_eq(l, "jpg") || str_eq(l, "jpeg") || str_eq(l, "gif") || str_eq(
                l,
                "bmp",
            ) || str_eq(l, "webp") || str_eq(l, "svg") || str_eq(l, "tiff") || str_eq(l, "tif")
                || str_eq(l, "ico")
        },
    }
}

/// A path whose extension, lowercased, is `png`, `jpg`, `jpeg`, `gif`,
/// `bmp`, `webp`, `svg`, `tiff`, `tif` or `ico` names an image file; a path
/// without an extension names none.
pub proof fn image_extensions_name_images(p: Seq<char>)
    ensures
        extension_of(p) matches Some(e) && (lowercase(e) == "png"@ || lowercase(e) == "jpg"@ || lowercase(e)
            == "jpeg"@ || lowercase(e) == "gif"@ || lowercase(e) == "bmp"@ || lowercase(e) == "webp"@
            || lowercase(e) == "svg"@ || lowercase(e) == "tiff"@ || lowercase(e) == "tif"@ || lowercase(e)
            == "ico"@) ==> image_path(p),
        extension_of(p) is None ==> !image_path(p),
{
}

/// An extension is shorter than its path.
pub proof fn lemma_extension_suffix(p: Seq<char>)
    ensures
        extension_of(p) matches Some(e) ==> e.len() < p.len(),
{
    let end = trimmed_len(p) as int;
    lemma_trimmed_len(p);
    lemma_component_start(p, end);
    if let Some(n) = file_name_of(p) {
        lemma_last_dot(n, n.len() as int);
    }
}

proof fn lemma_trimmed_len(p: Seq<char>)
    ensures
        trimmed_len(p) <= p.len(),
    decreases p.len(),
{
    if p.len() > 0 && p.last() == '/' {
        lemma_trimmed_len(p.drop_last());
    }
}

} // verus!
