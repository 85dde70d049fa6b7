//! The regular-expression engine, as far as this library relies on it.
//!
//! Nothing in this module is proved: each item states what the `regex` crate
//! is taken to do, and the rest of the library is verified against that.

use regex::Regex;
use vstd::prelude::*;

verus! {

/// `regex::Regex`, a compiled expression. Nothing inside it is seen here.
#[verifier::external_type_specification]
#[verifier::external_body]
pub struct ExRegex(regex::Regex);

/// `regex::Error`, why a pattern was refused. Nothing inside it is seen here.
#[verifier::external_type_specification]
#[verifier::external_body]
pub struct ExRegexError(regex::Error);

/// The pattern text that a compiled expression was built from, which
/// `Regex::as_str` hands back.
pub uninterp spec fn pattern_source(re: Regex) -> Seq<char>;

/// Whether the expression written as `pattern` matches anywhere in `text`.
pub uninterp spec fn pattern_matches(pattern: Seq<char>, text: Seq<char>) -> bool;

/// What is left of `text` once every match of the expression written as
/// `pattern` has been replaced as `replacement` says.
pub uninterp spec fn pattern_replace_all(
    pattern: Seq<char>,
    text: Seq<char>,
    replacement: Seq<char>,
) -> Seq<char>;

/// Compiles `pattern` with `Regex::new`. A compiled expression remembers the
/// text it was built from.
///
/// Whether a pattern compiles is left open, and not even taken to depend on
/// the pattern alone: the engine refuses a pattern whose compiled program
/// takes more than a limit of bytes, and how many bytes a program takes
/// differs between machines of different pointer width.
#[verifier::external_body]
pub(crate) fn compile(pattern: &str) -> (r: Result<Regex, regex::Error>)
    ensures
        r matches Ok(re) ==> pattern_source(re) == pattern@,
{
    Regex::new(pattern)
}

/// Searches `text` with `Regex::is_match`. The answer depends on the pattern
/// text and the searched text alone.
#[verifier::external_body]
pub(crate) fn is_match(re: &Regex, text: &str) -> (b: bool)
    ensures
        b == pattern_matches(pattern_source(*re), text@),
{
    re.is_match(text)
}

/// Replaces every match of the expression in `text` with `Regex::replace_all`,
/// where `replacement` is read as a replacement string (`$` refers to capture
/// groups). The outcome depends on the pattern text, the searched text and the
/// replacement alone.
#[verifier::external_body]
pub(crate) fn replace_all(re: &Regex, text: &str, replacement: &str) -> (s: String)
    ensures
        s@ == pattern_replace_all(pattern_source(*re), text@, replacement@),
{
    re.replace_all(text, replacement).to_string()
}

} // verus!
