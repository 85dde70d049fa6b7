//! A command line, ready to be started by whoever may start processes.

use crate::text::texts;
use vstd::prelude::*;

verus! {

/// A program and the arguments to start it with.
#[derive(Clone, Debug, PartialEq, Eq)]
pub struct Invocation {
    pub program: String,
    pub arguments: Vec<String>,
}

/// An invocation as plain text: the program and each argument.
pub struct InvocationView {
    pub program: Seq<char>,
    pub arguments: Seq<Seq<char>>,
}

impl View for Invocation {
    type V = InvocationView;

    open spec fn view(&self) -> InvocationView {
        InvocationView {
            program: self.program@,
            arguments: texts(self.arguments@),
        }
    }
}

/// The views of a sequence of invocations.
pub open spec fn invocation_views(calls: Seq<Invocation>) -> Seq<InvocationView> {
    Seq::new(calls.len(), |i: int| calls[i]@)
}

/// What became of an invocation.
#[derive(Clone, Debug, PartialEq, Eq)]
pub enum Outcome {
    /// The program could not be started; holds the reason.
    NotStarted(String),
    /// The program ran and came to an end.
    Exited {
        /// Whether it reported success.
        succeeded: bool,
        /// Its exit status, as text for the operator.
        status: String,
        /// What it wrote to its output stream.
        stdout: Vec<u8>,
        /// What it wrote to its error stream.
        stderr: Vec<u8>,
    },
}

} // verus!
