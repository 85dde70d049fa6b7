//! Showing two files side by side to a person.

use crate::invocation::{Invocation, InvocationView};
use vstd::prelude::*;
use vstd::string::StringExecFns;

verus! {

/// The diff viewer, `nvim` in diff mode.
pub struct VimDiff;

/// The command line that shows `file1` and `file2` side by side.
pub open spec fn diff_invocation(file1: Seq<char>, file2: Seq<char>) -> InvocationView {
    InvocationView { program: "nvim"@, arguments: seq!["-d"@, file1, file2] }
}

impl VimDiff {
    /// How to show `file1` beside `file2`. Whoever starts the viewer waits for
    /// it to end, and makes nothing of how it ended.
    pub fn diff(file1: &str, file2: &str) -> (call: Invocation)
        ensures
            call@ == diff_invocation(file1@, file2@),
    {
        let mut arguments: Vec<String> = Vec::new();
        arguments.push(String::from_str("-d"));
        arguments.push(String::from_str(file1));
        arguments.push(String::from_str(file2));
        let call = Invocation { program: String::from_str("nvim"), arguments };
        assert(call@.arguments =~= seq!["-d"@, file1@, file2@]);
        call
    }
}

} // verus!
