//! The library's only door to the regex crate. Whether a pattern compiles, and
//! what it matches, are functions of the pattern and the text alone; both get
//! uninterpreted names here, and every trusted wrapper speaks only of those
//! names. Patterns are recompiled per call, as the probing loop always did.
use vstd::prelude::*;

verus! {

/// Whether `regex::Regex::new` accepts the pattern.
pub uninterp spec fn regex_ok(pat: Seq<char>) -> bool;

/// Whether the compiled pattern matches anywhere in the text
/// (meaningful when `regex_ok(pat)`).
pub uninterp spec fn regex_match(pat: Seq<char>, text: Seq<char>) -> bool;

/// For each successive non-overlapping match of the pattern in the text, the
/// text of capture group 1, or the empty string where that group took no part
/// (meaningful when `regex_ok(pat)`).
pub uninterp spec fn regex_group1s(pat: Seq<char>, text: Seq<char>) -> Seq<Seq<char>>;

/// Relies on regex::Regex::new: compilation succeeds or fails on the pattern
/// alone.
#[verifier::external_body]
pub(crate) fn regex_valid(pat: &str) -> (r: bool)
    ensures
        r == regex_ok(pat@),
{
    regex::Regex::new(pat).is_ok()
}

/// Relies on regex::Regex::new and regex::Regex::is_match: true iff the
/// pattern matches anywhere in the text.
#[verifier::external_body]
pub(crate) fn regex_is_match(pat: &str, text: &str) -> (r: bool)
    requires
        regex_ok(pat@),
    ensures
        r == regex_match(pat@, text@),
{
    regex::Regex::new(pat).unwrap().is_match(text)
}

/// Relies on regex::Regex::captures_iter and regex::Captures::get: one entry
/// per successive non-overlapping match, holding capture group 1 ("" where the
/// group took no part).
#[verifier::external_body]
pub(crate) fn regex_capture_group1s(pat: &str, text: &str) -> (r: Vec<String>)
    requires
        regex_ok(pat@),
    ensures
        r.deep_view() == regex_group1s(pat@, text@),
{
    let re = regex::Regex::new(pat).unwrap();
    re.captures_iter(text).map(|c| c.get(1).map_or("", |m| m.as_str()).to_string()).collect()
}

} // verus!
