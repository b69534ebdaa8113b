//! Regular expressions, as far as the line classifier needs them: compiling
//! a pattern and reading the capture groups of its first match in a line.

use regex::Regex;
use vstd::prelude::*;

verus! {

/// `regex::Regex`, a compiled expression; nothing inside it is visible here.
#[verifier::external_type_specification]
#[verifier::external_body]
pub struct ExRegex(regex::Regex);

/// `regex::Error`, the reason why a pattern was refused; carried through only.
#[verifier::external_type_specification]
#[verifier::external_body]
pub struct ExRegexError(regex::Error);

/// The pattern text that a compiled expression was made from.
pub uninterp spec fn source_of(re: Regex) -> Seq<char>;

/// Whether the pattern engine, with its default limits, accepts `pattern`.
pub uninterp spec fn regex_accepts(pattern: Seq<char>) -> bool;

/// The capture groups of the leftmost match of the pattern `pattern` in
/// `haystack`, or `None` where it matches nowhere. Group 0 is the whole
/// match; a group that took no part in the match is `None`.
pub uninterp spec fn regex_captures(pattern: Seq<char>, haystack: Seq<char>) -> Option<
    Seq<Option<Seq<char>>>,
>;

/// One capture group as a value of the model.
pub open spec fn group_view(g: Option<String>) -> Option<Seq<char>> {
    match g {
        Some(s) => Some(s@),
        None => None,
    }
}

/// The capture groups of one match as values of the model.
pub open spec fn groups_view(v: Seq<Option<String>>) -> Seq<Option<Seq<char>>> {
    v.map_values(|g: Option<String>| group_view(g))
}

/// What a search handed back, as a value of the model.
pub open spec fn captures_view(c: Option<Vec<Option<String>>>) -> Option<Seq<Option<Seq<char>>>> {
    match c {
        Some(v) => Some(groups_view(v@)),
        None => None,
    }
}

/// Calls `regex::Regex::new`. The contract claims that whether it succeeds
/// depends on the pattern text alone, and gives that the name
/// `regex_accepts`; and that the expression, where there is one, remembers
/// the pattern text it was given (the one `Regex::as_str` hands back).
#[verifier::external_body]
pub(crate) fn compile(pattern: &str) -> (r: Result<Regex, regex::Error>)
    ensures
        r is Ok <==> regex_accepts(pattern@),
        r matches Ok(re) ==> source_of(re) == pattern@,
{
    Regex::new(pattern)
}

/// Calls `regex::Regex::captures` and copies the text of each group out of
/// the match with `Captures::iter` and `Match::as_str`. The contract claims
/// that the outcome depends on the pattern text and the line alone, and
/// gives it the name `regex_captures`.
#[verifier::external_body]
pub(crate) fn capture_groups(re: &Regex, line: &str) -> (r: Option<Vec<Option<String>>>)
    ensures
        captures_view(r) == regex_captures(source_of(*re), line@),
{
    re.captures(line).map(|c| c.iter().map(|m| m.map(|t| t.as_str().to_string())).collect())
}

/// Calls `to_string` on a `regex::Error`, which renders it through its
/// `Display` impl. Nothing is claimed of the text.
#[verifier::external_body]
pub(crate) fn error_text(e: &regex::Error) -> String {
    e.to_string()
}

} // verus!
