//! Regular expressions, compiled and run by the `regex` crate.

use vstd::prelude::*;

verus! {

/// A compiled regular expression of the `regex` crate.
#[verifier::external_type_specification]
#[verifier::external_body]
pub struct ExRegex(regex::Regex);

/// Whether the `regex` crate compiles `pattern`.
pub uninterp spec fn regex_compiles(pattern: Seq<char>) -> bool;

/// Whether `pattern` matches somewhere in `text`, by the `regex` crate's
/// semantics.
pub uninterp spec fn regex_finds(pattern: Seq<char>, text: Seq<char>) -> bool;

/// For each successive non-overlapping match of `pattern` in `text`, the text
/// of capture group `group` (`None` when the group took no part), as the
/// `regex` crate's `captures_iter` yields them.
pub uninterp spec fn regex_group_texts(pattern: Seq<char>, text: Seq<char>, group: nat) -> Seq<
    Option<Seq<char>>,
>;

/// `text` with every non-overlapping match of `pattern` replaced by
/// `replacement` (taken literally when it holds no `$`), as the `regex`
/// crate's `replace_all` computes it.
pub uninterp spec fn regex_replaced(pattern: Seq<char>, text: Seq<char>, replacement: Seq<char>) -> Seq<
    char,
>;

/// A regular expression compiled from a known pattern. Only [`compile`]
/// builds one, so the compiled form always belongs to `source`.
pub struct Pattern {
    source: String,
    regex: regex::Regex,
}

impl Pattern {
    /// The pattern text this expression was compiled from.
    pub closed spec fn text(&self) -> Seq<char> {
        self.source@
    }
}

/// Calls `regex::Regex::new`, turning its error into the error's text. The
/// contract claims that it succeeds exactly when the pattern compiles, and
/// that what it returns was compiled from `source`; nothing is claimed of the
/// error text.
#[verifier::external_body]
pub(crate) fn compile(source: &str) -> (r: Result<Pattern, String>)
    ensures
        r is Ok <==> regex_compiles(source@),
        r matches Ok(p) ==> p.text() == source@,
{
    match regex::Regex::new(source) {
        Ok(regex) => Ok(Pattern { source: source.to_owned(), regex }),
        Err(e) => Err(e.to_string()),
    }
}

/// Calls `Regex::is_match`. The contract claims that the answer is whether
/// the pattern matches somewhere in `text`.
#[verifier::external_body]
pub(crate) fn is_match(p: &Pattern, text: &str) -> (r: bool)
    ensures
        r == regex_finds(p.text(), text@),
{
    p.regex.is_match(text)
}

/// Calls `Regex::captures_iter` and reads capture group `group` of each
/// match. The contract claims that the texts are `regex_group_texts` of the
/// pattern, the text and the group.
#[verifier::external_body]
pub(crate) fn group_texts(p: &Pattern, text: &str, group: usize) -> (r: Vec<Option<String>>)
    ensures
        r.deep_view() == regex_group_texts(p.text(), text@, group as nat),
{
    p.regex.captures_iter(text).map(|c| c.get(group).map(|m| m.as_str().to_owned())).collect()
}

/// Calls `Regex::replace_all`. The contract claims that the result is
/// `regex_replaced` of the pattern, the text and the replacement.
#[verifier::external_body]
pub(crate) fn replace_all(p: &Pattern, text: &str, replacement: &str) -> (r: String)
    ensures
        r@ == regex_replaced(p.text(), text@, replacement@),
{
    p.regex.replace_all(text, replacement).into_owned()
}

} // verus!
