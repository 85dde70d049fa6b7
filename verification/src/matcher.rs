//! The conflict expressions, compiled once and then asked about paths.
//!
//! A value of these types can only be built here, from the expression it is
//! named after. So what it answers is known without asking where it came
//! from.

use crate::error::ResolvethingError;
use crate::pattern::{is_match, pattern_matches, pattern_replace_all, pattern_source, replace_all};
use crate::{
    conflict_pattern,
    conflict_pattern_for_type,
    conflict_suffix_pattern_for_type,
    sync_conflict_regex,
    sync_conflict_regex_for_type,
    sync_conflict_replace_regex_for_type,
};
use regex::Regex;
use vstd::prelude::*;
use vstd::string::StringExecFns;

verus! {

/// Whether `path` carries a conflict marker: whether the conflict expression
/// matches it.
pub open spec fn is_marked(path: Seq<char>) -> bool {
    pattern_matches(conflict_pattern(), path)
}

/// Whether `path` is conflict-marked with the extension `file_type`: whether
/// the conflict expression of that type matches it.
pub open spec fn is_marked_as(file_type: Seq<char>, path: Seq<char>) -> bool {
    pattern_matches(conflict_pattern_for_type(file_type), path)
}

/// The path of the file that the conflict-marked `path` of type `file_type`
/// is a copy of: `path` with the marker, its token and the extension at its
/// end replaced by the extension.
pub open spec fn original_of(file_type: Seq<char>, path: Seq<char>) -> Seq<char> {
    pattern_replace_all(conflict_suffix_pattern_for_type(file_type), path, "."@ + file_type)
}

/// Whether `e` reports that the conflict expression was refused.
pub open spec fn marker_refused(e: ResolvethingError) -> bool {
    e matches ResolvethingError::Pattern(p) && p@ == conflict_pattern()
}

/// Whether `e` reports that one of the conflict expressions of `file_type`
/// was refused.
pub open spec fn type_refused(file_type: Seq<char>, e: ResolvethingError) -> bool {
    e matches ResolvethingError::Pattern(p) && (p@ == conflict_pattern_for_type(file_type) || p@
        == conflict_suffix_pattern_for_type(file_type))
}

/// The compiled conflict expression.
#[derive(Debug)]
pub struct ConflictMatcher {
    regex: Regex,
}

impl ConflictMatcher {
    #[verifier::type_invariant]
    spec fn compiled_from_conflict_pattern(self) -> bool {
        pattern_source(self.regex) == conflict_pattern()
    }

    /// Compiles the conflict expression. Fails only if the expression engine
    /// refuses it.
    pub fn new() -> (r: Result<Self, ResolvethingError>)
        ensures
            r matches Err(e) ==> marker_refused(e),
    {
        match sync_conflict_regex() {
            Ok(regex) => Ok(ConflictMatcher { regex }),
            Err(e) => Err(e),
        }
    }

    /// Whether `path` carries a conflict marker.
    pub fn is_marked(&self, path: &str) -> (marked: bool)
        ensures
            marked == is_marked(path@),
    {
        proof {
            use_type_invariant(self);
        }
        is_match(&self.regex, path)
    }
}

/// The compiled conflict expressions of one file type.
#[derive(Debug)]
pub struct TypeMatcher {
    extension: String,
    regex: Regex,
    replaceexp: Regex,
}

impl TypeMatcher {
    #[verifier::type_invariant]
    spec fn compiled_from_type_patterns(self) -> bool {
        &&& pattern_source(self.regex) == conflict_pattern_for_type(self.extension@)
        &&& pattern_source(self.replaceexp) == conflict_suffix_pattern_for_type(self.extension@)
    }

    /// The extension that the expressions were made for.
    pub closed spec fn file_type(&self) -> Seq<char> {
        self.extension@
    }

    /// Compiles the conflict expressions of `file_type`. Fails only if the
    /// expression engine refuses one of them.
    pub fn new(file_type: &str) -> (r: Result<Self, ResolvethingError>)
        ensures
            r matches Ok(matcher) ==> matcher.file_type() == file_type@,
            r matches Err(e) ==> type_refused(file_type@, e),
    {
        let regex = match sync_conflict_regex_for_type(file_type) {
            Ok(regex) => regex,
            Err(e) => {
                return Err(e);
            },
        };
        let replaceexp = match sync_conflict_replace_regex_for_type(file_type) {
            Ok(regex) => regex,
            Err(e) => {
                return Err(e);
            },
        };
        Ok(TypeMatcher { extension: String::from_str(file_type), regex, replaceexp })
    }

    /// Whether `path` is conflict-marked with the extension.
    pub fn is_marked(&self, path: &str) -> (marked: bool)
        ensures
            marked == is_marked_as(self.file_type(), path@),
    {
        proof {
            use_type_invariant(self);
        }
        is_match(&self.regex, path)
    }

    /// The path of the file that the conflict-marked `path` is a copy of.
    pub fn original(&self, path: &str) -> (original: String)
        ensures
            original@ == original_of(self.file_type(), path@),
    {
        proof {
            use_type_invariant(self);
        }
        let replacement = String::from_str(".").concat(self.extension.as_str());
        replace_all(&self.replaceexp, path, replacement.as_str())
    }
}

/// Every expression that a run over a working directory asks: the conflict
/// expression, and those of the file types whose conflicts are resolved,
/// `md` and `json`.
#[derive(Debug)]
pub struct Patterns {
    marker: ConflictMatcher,
    markdown: TypeMatcher,
    json: TypeMatcher,
}

impl Patterns {
    #[verifier::type_invariant]
    spec fn made_for_tracked_types(self) -> bool {
        self.markdown.file_type() == "md"@ && self.json.file_type() == "json"@
    }

    /// Compiles all expressions. Fails only if the expression engine refuses
    /// one of them.
    pub fn new() -> (r: Result<Self, ResolvethingError>)
        ensures
            r matches Err(e) ==> marker_refused(e) || type_refused("md"@, e) || type_refused(
                "json"@,
                e,
            ),
    {
        let marker = match ConflictMatcher::new() {
            Ok(matcher) => matcher,
            Err(e) => {
                return Err(e);
            },
        };
        let markdown = match TypeMatcher::new("md") {
            Ok(matcher) => matcher,
            Err(e) => {
                return Err(e);
            },
        };
        let json = match TypeMatcher::new("json") {
            Ok(matcher) => matcher,
            Err(e) => {
                return Err(e);
            },
        };
        Ok(Patterns { marker, markdown, json })
    }

    /// The conflict expression.
    pub fn marker(&self) -> &ConflictMatcher {
        &self.marker
    }

    /// The expressions of `md` files.
    pub fn markdown(&self) -> (matcher: &TypeMatcher)
        ensures
            matcher.file_type() == "md"@,
    {
        proof {
            use_type_invariant(self);
        }
        &self.markdown
    }

    /// The expressions of `json` files.
    pub fn json(&self) -> (matcher: &TypeMatcher)
        ensures
            matcher.file_type() == "json"@,
    {
        proof {
            use_type_invariant(self);
        }
        &self.json
    }
}

} // verus!
