//! What can go wrong in a resolution pass.

use vstd::prelude::*;
use vstd::string::StringExecFns;

verus! {

/// A failure that ends a pass, or the handling of one conflict.
#[derive(Clone, Debug, PartialEq, Eq)]
pub enum ResolvethingError {
    /// The duplicate-discovery tool could not be run or read; holds the reason.
    Duplicate(String),
    /// The expression engine refused a conflict-marker pattern; holds the
    /// pattern.
    Pattern(String),
    /// A scanned file's path is not valid text; holds the path as far as it
    /// could be read.
    InvalidPath(String),
    /// The diff viewer could not be started; holds the reason.
    Diff(String),
    /// A file could not be moved to the trash; holds the reason.
    Trash(String),
}

impl ResolvethingError {
    /// The text that the error carries.
    pub open spec fn detail(self) -> Seq<char> {
        match self {
            ResolvethingError::Duplicate(s) => s@,
            ResolvethingError::Pattern(s) => s@,
            ResolvethingError::InvalidPath(s) => s@,
            ResolvethingError::Diff(s) => s@,
            ResolvethingError::Trash(s) => s@,
        }
    }

    /// What an operator is told about the kind of failure, before its detail.
    pub open spec fn heading(self) -> Seq<char> {
        match self {
            ResolvethingError::Duplicate(_) => "duplicate search failed: "@,
            ResolvethingError::Pattern(_) => "invalid conflict pattern: "@,
            ResolvethingError::InvalidPath(_) => "invalid text in file path: "@,
            ResolvethingError::Diff(_) => "diff viewer failed: "@,
            ResolvethingError::Trash(_) => "trash failed: "@,
        }
    }

    /// A line for the operator: the kind of failure, then its detail.
    pub fn message(&self) -> (text: String)
        ensures
            text@ == self.heading() + self.detail(),
    {
        match self {
            ResolvethingError::Duplicate(s) => String::from_str("duplicate search failed: ").concat(
                s.as_str(),
            ),
            ResolvethingError::Pattern(s) => String::from_str("invalid conflict pattern: ").concat(
                s.as_str(),
            ),
            ResolvethingError::InvalidPath(s) => String::from_str(
                "invalid text in file path: ",
            ).concat(s.as_str()),
            ResolvethingError::Diff(s) => String::from_str("diff viewer failed: ").concat(
                s.as_str(),
            ),
            ResolvethingError::Trash(s) => String::from_str("trash failed: ").concat(s.as_str()),
        }
    }
}

} // verus!
