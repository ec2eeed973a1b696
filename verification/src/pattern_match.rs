//! Trusted boundary to the two pattern-matching engines.
//!
//! The extractors' grammars are user-supplied regular expressions; whether
//! a pattern compiles and where it matches is decided by the `regex` and
//! `fancy-regex` crates.  Each result below is a function of the pattern
//! and the searched text alone, so it is given an uninterpreted name that
//! the extractors' contracts are stated over.

use vstd::prelude::*;

verus! {

/// Whether `regex::Regex::new` accepts the pattern.
pub uninterp spec fn regex_accepts(pattern: Seq<char>) -> bool;

/// Whether the pattern matches anywhere in the text, as decided by
/// `regex::Regex::is_match`.
pub uninterp spec fn regex_found(pattern: Seq<char>, text: Seq<char>) -> bool;

/// Whether `fancy_regex::Regex::new` accepts the pattern.
pub uninterp spec fn fancy_accepts(pattern: Seq<char>) -> bool;

/// The named capture groups of a compiled pattern, in group order, as
/// reported by `fancy_regex::Regex::capture_names`.
pub uninterp spec fn fancy_group_names(pattern: Seq<char>) -> Seq<Seq<char>>;

/// For each successful non-overlapping match of the pattern in the text,
/// in match order: the contents of the three named groups, as reported by
/// `fancy_regex::Regex::captures_iter` and `Captures::name`.
pub uninterp spec fn fancy_captures(
    pattern: Seq<char>,
    text: Seq<char>,
    g1: Seq<char>,
    g2: Seq<char>,
    g3: Seq<char>,
) -> Seq<(Option<Seq<char>>, Option<Seq<char>>, Option<Seq<char>>)>;

/// Relies on `regex::Regex::new`: compilation succeeds or fails on the
/// pattern text alone.
#[verifier::external_body]
pub(crate) fn regex_compiles(pattern: &str) -> (b: bool)
    ensures
        b == regex_accepts(pattern@),
{
    regex::Regex::new(pattern).is_ok()
}

/// Relies on `regex::Regex::is_match`: true if and only if the pattern
/// matches somewhere in `text`, a function of pattern and text alone.
#[verifier::external_body]
pub(crate) fn regex_is_match(pattern: &str, text: &str) -> (r: bool)
    requires
        regex_accepts(pattern@),
    ensures
        r == regex_found(pattern@, text@),
{
    match regex::Regex::new(pattern) {
        Ok(re) => re.is_match(text),
        Err(_) => false,
    }
}

/// Relies on `fancy_regex::Regex::new`: compilation succeeds or fails on
/// the pattern text alone.
#[verifier::external_body]
pub(crate) fn fancy_compiles(pattern: &str) -> (b: bool)
    ensures
        b == fancy_accepts(pattern@),
{
    fancy_regex::Regex::new(pattern).is_ok()
}

/// Relies on `fancy_regex::Regex::capture_names`: the named groups of the
/// compiled pattern, a function of the pattern alone.
#[verifier::external_body]
pub(crate) fn fancy_capture_group_names(pattern: &str) -> (r: Vec<String>)
    requires
        fancy_accepts(pattern@),
    ensures
        r.deep_view() == fancy_group_names(pattern@),
{
    let re = match fancy_regex::Regex::new(pattern) {
        Ok(re) => re,
        Err(_) => return Vec::new(),
    };
    re.capture_names().flatten().map(|name| name.to_string()).collect()
}

/// Relies on `fancy_regex::Regex::captures_iter` and `Captures::name`:
/// matches are scanned left to right without overlap, erroring matches are
/// skipped, and each match reports its three named groups; the whole
/// result is a function of the pattern, the text and the group names.
#[verifier::external_body]
pub(crate) fn fancy_find_captures(pattern: &str, text: &str, g1: &str, g2: &str, g3: &str) -> (r:
    Vec<(Option<String>, Option<String>, Option<String>)>)
    requires
        fancy_accepts(pattern@),
    ensures
        r.deep_view() == fancy_captures(pattern@, text@, g1@, g2@, g3@),
{
    let re = match fancy_regex::Regex::new(pattern) {
        Ok(re) => re,
        Err(_) => return Vec::new(),
    };
    re.captures_iter(text).filter_map(|c| c.ok()).map(
        |c| (
            c.name(g1).map(|m| m.as_str().to_string()),
            c.name(g2).map(|m| m.as_str().to_string()),
            c.name(g3).map(|m| m.as_str().to_string()),
        ),
    ).collect()
}

} // verus!
