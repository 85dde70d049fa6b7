//! Reconciles what a folder-synchronisation tool leaves behind: duplicate
//! files, conflict-marked files, temporary and backup files.
//!
//! The library decides; it touches no file and starts no process. Its callers
//! hand it what they read (paths, tool output, file contents) and carry out
//! what it answers.

pub mod app;
pub mod config;
pub mod conflict;
pub mod diff;
pub mod duplicates;
pub mod error;
pub mod fdupes_runner;
pub mod fzf;
pub mod invocation;
pub mod matcher;
pub mod pattern;
pub mod resolution;
pub mod text;
pub mod trash;

use crate::error::ResolvethingError;
use crate::pattern::{compile, pattern_source};
use regex::Regex;
use vstd::prelude::*;
use vstd::string::StringExecFns;

verus! {

/// The expression that recognises a conflict-marked path: the marker
/// `.sync-conflict-`, a token of upper-case letters, digits and hyphens, and
/// then either the end of the path or a further extension.
pub open spec fn conflict_pattern() -> Seq<char> {
    r".*\.sync-conflict-[A-Z0-9-]*(\..*)?$"@
}

/// The expression that recognises a conflict-marked path of one file type: it
/// ends with the marker, a token of at least one character and the extension.
pub open spec fn conflict_pattern_for_type(file_type: Seq<char>) -> Seq<char> {
    r".*\.sync-conflict-[A-Z0-9-]+\."@ + file_type + "$"@
}

/// The expression that matches what a conflict-marked path of one file type
/// has at its end: the marker, its token and the extension.
pub open spec fn conflict_suffix_pattern_for_type(file_type: Seq<char>) -> Seq<char> {
    r"\.sync-conflict-[A-Z0-9-]+\."@ + file_type + "$"@
}

/// What the engine's answer to `pattern` comes to: the compiled expression as
/// it is, or the pattern reported as refused.
pub fn accepted(pattern: String, compiled: Result<Regex, regex::Error>) -> (r: Result<
    Regex,
    ResolvethingError,
>)
    ensures
        match compiled {
            Ok(re) => r == Ok::<Regex, ResolvethingError>(re),
            Err(_) => r == Err::<Regex, ResolvethingError>(ResolvethingError::Pattern(pattern)),
        },
{
    match compiled {
        Ok(re) => Ok(re),
        Err(_) => Err(ResolvethingError::Pattern(pattern)),
    }
}

/// Compiles `pattern`, or reports it as refused. Which of the two is up to
/// the engine.
fn compile_pattern(pattern: String) -> (r: Result<Regex, ResolvethingError>)
    ensures
        r matches Ok(re) ==> pattern_source(re) == pattern@,
        r matches Err(e) ==> e == ResolvethingError::Pattern(pattern),
{
    let compiled = compile(pattern.as_str());
    accepted(pattern, compiled)
}

/// The compiled expression for conflict-marked paths.
pub fn sync_conflict_regex() -> (r: Result<Regex, ResolvethingError>)
    ensures
        r matches Ok(re) ==> pattern_source(re) == conflict_pattern(),
        r matches Err(e) ==> e matches ResolvethingError::Pattern(p) && p@ == conflict_pattern(),
{
    compile_pattern(String::from_str(r".*\.sync-conflict-[A-Z0-9-]*(\..*)?$"))
}

/// The compiled expression for conflict-marked paths of one file type.
pub fn sync_conflict_regex_for_type(file_type: &str) -> (r: Result<Regex, ResolvethingError>)
    ensures
        r matches Ok(re) ==> pattern_source(re) == conflict_pattern_for_type(file_type@),
        r matches Err(e) ==> e matches ResolvethingError::Pattern(p) && p@
            == conflict_pattern_for_type(file_type@),
{
    let pattern = String::from_str(r".*\.sync-conflict-[A-Z0-9-]+\.").concat(file_type).concat("$");
    compile_pattern(pattern)
}

/// The compiled expression for the end of a conflict-marked path of one file
/// type, which is replaced to find the path of the original.
pub fn sync_conflict_replace_regex_for_type(file_type: &str) -> (r: Result<
    Regex,
    ResolvethingError,
>)
    ensures
        r matches Ok(re) ==> pattern_source(re) == conflict_suffix_pattern_for_type(file_type@),
        r matches Err(e) ==> e matches ResolvethingError::Pattern(p) && p@
            == conflict_suffix_pattern_for_type(file_type@),
{
    let pattern = String::from_str(r"\.sync-conflict-[A-Z0-9-]+\.").concat(file_type).concat("$");
    compile_pattern(pattern)
}

} // verus!
