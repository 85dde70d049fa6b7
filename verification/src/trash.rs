//! Deleting, which is moving to the trash with a configured command.

use crate::config::Config;
use crate::error::ResolvethingError;
use crate::invocation::{Invocation, InvocationView, Outcome};
use crate::text::{decode_lossy, lossy_text};
use vstd::prelude::*;
use vstd::string::StringExecFns;

verus! {

/// The trash: where files go that are not kept.
pub struct Trash;

/// The command line that moves `file` to the trash: the configured command
/// with the path as its one argument.
pub open spec fn trash_invocation(file: Seq<char>, command: Seq<char>) -> InvocationView {
    InvocationView { program: command, arguments: seq![file] }
}

/// Why a file was not removed, as the operator is told: the file and what
/// the trash command wrote to its error stream.
pub open spec fn removal_failure(file: Seq<char>, complaint: Seq<char>) -> Seq<char> {
    "Failed to remove "@ + file + ": "@ + complaint
}

/// Why running the trash command on `file` did not remove it, if it did not:
/// the command did not start, or it reported failure. A file that was gone
/// already is a failure like any other.
pub open spec fn trash_failure(file: Seq<char>, outcome: Outcome) -> Option<Seq<char>> {
    match outcome {
        Outcome::NotStarted(reason) => Some("Failed to execute trash command: "@ + reason@),
        Outcome::Exited { succeeded, status, stdout, stderr } => if succeeded {
            None
        } else {
            Some(removal_failure(file, lossy_text(stderr@)))
        },
    }
}

impl Trash {
    /// How to move `file` to the trash under `config`.
    pub fn trash(file: &str, config: &Config) -> (call: Invocation)
        ensures
            call@ == trash_invocation(file@, config.trash_command@),
    {
        let mut arguments: Vec<String> = Vec::new();
        arguments.push(String::from_str(file));
        let call = Invocation { program: config.trash_command.clone(), arguments };
        assert(call@.arguments =~= seq![file@]);
        call
    }

    /// What became of moving `file` to the trash, given what running the
    /// command of `trash` came to: success if and only if the command started
    /// and reported success.
    pub fn outcome(file: &str, outcome: &Outcome) -> (r: Result<(), ResolvethingError>)
        ensures
            match trash_failure(file@, *outcome) {
                Some(reason) => r matches Err(ResolvethingError::Trash(told)) && told@ == reason,
                None => r is Ok,
            },
    {
        match outcome {
            Outcome::NotStarted(reason) => Err(
                ResolvethingError::Trash(
                    String::from_str("Failed to execute trash command: ").concat(reason.as_str()),
                ),
            ),
            Outcome::Exited { succeeded, status, stdout, stderr } => {
                let complaint = decode_lossy(stderr);
                Self::removal(file, *succeeded, complaint.as_str())
            },
        }
    }

    /// What became of moving `file` to the trash, given whether the command
    /// reported success and what it wrote to its error stream. A failure
    /// names the file and gives the command's complaint.
    pub fn removal(file: &str, succeeded: bool, complaint: &str) -> (r: Result<
        (),
        ResolvethingError,
    >)
        ensures
            succeeded <==> r is Ok,
            r matches Err(e) ==> e matches ResolvethingError::Trash(reason) && reason@
                == removal_failure(file@, complaint@),
    {
        if succeeded {
            Ok(())
        } else {
            let reason = String::from_str("Failed to remove ").concat(file).concat(": ").concat(
                complaint,
            );
            Err(ResolvethingError::Trash(reason))
        }
    }
}

} // verus!
