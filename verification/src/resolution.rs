//! Resolving one conflict pair, step by step.
//!
//! The library decides what is to happen next; its caller looks at the files,
//! shows them to a person and deletes, and reports back what it found.

use crate::config::Config;
use crate::conflict::{Conflict, ConflictView, FileProbe};
use crate::diff::{diff_invocation, VimDiff};
use crate::error::ResolvethingError;
use crate::invocation::{Invocation, InvocationView};
use crate::text::text_of;
use crate::trash::{trash_invocation, Trash};
use vstd::prelude::*;

verus! {

/// How far the resolution of a pair has come.
#[derive(Clone, Copy, Debug, PartialEq, Eq, Structural)]
pub enum ConflictState {
    /// Nothing is known of the files yet.
    Unvalidated,
    /// The pair cannot be resolved by comparing its files. Nothing more
    /// happens to it.
    Invalid,
    /// The conflict-marked file is gone and the original is there: somebody
    /// resolved the conflict already. Nothing more happens to the pair.
    AlreadyResolved,
    /// The files are to be shown to a person, and compared afterwards.
    NeedsReview,
    /// The files were found equal; the conflict-marked one is to be deleted.
    Resolved,
    /// The files still differ, or cannot be read as text. The pair stays as
    /// it is.
    Unresolved,
}

/// What the caller found out since the last step.
#[derive(Clone, Debug, PartialEq, Eq)]
pub enum ConflictEvent {
    /// Both files were looked at.
    Probed { original: FileProbe, modified: FileProbe },
    /// The diff viewer could not be started; holds the reason.
    ViewerFailed(String),
    /// The diff viewer has come to an end, however it ended, and both files
    /// were read again as text; `None` stands for a file that could not be
    /// read as text.
    Reviewed { original_text: Option<String>, modified_text: Option<String> },
}

/// What the caller is to do before the next step.
#[derive(Clone, Debug, PartialEq, Eq)]
pub enum ConflictAction {
    /// Nothing.
    Nothing,
    /// Tell the operator that the conflict was resolved before.
    Report,
    /// Show the files with this command, wait for it to end, and read both
    /// files again as text.
    Review(Invocation),
    /// Delete the conflict-marked file with this command. A failure is told
    /// to the operator and changes nothing else.
    Trash(Invocation),
}

/// An action as plain text.
pub enum ActionView {
    Nothing,
    Report,
    Review(InvocationView),
    Trash(InvocationView),
}

impl View for ConflictAction {
    type V = ActionView;

    open spec fn view(&self) -> ActionView {
        match self {
            ConflictAction::Nothing => ActionView::Nothing,
            ConflictAction::Report => ActionView::Report,
            ConflictAction::Review(call) => ActionView::Review(call@),
            ConflictAction::Trash(call) => ActionView::Trash(call@),
        }
    }
}

/// Where a pair stands once its files have been looked at.
///
/// A pair of one and the same path is invalid. Else, where the conflict-marked
/// file is gone and the original is there, the conflict was resolved before.
/// Else the pair needs review if both files can be compared as text, and is
/// invalid if one cannot.
pub open spec fn validated(pair: ConflictView, original: FileProbe, modified: FileProbe)
    -> ConflictState {
    if pair.originalfile == pair.modifiedfile {
        ConflictState::Invalid
    } else if !modified.exists && original.exists {
        ConflictState::AlreadyResolved
    } else if original.valid() && modified.valid() {
        ConflictState::NeedsReview
    } else {
        ConflictState::Invalid
    }
}

/// Where a pair stands once it was reviewed: resolved if both files could be
/// read as text and hold the same text, unresolved otherwise.
pub open spec fn compared(original: Option<Seq<char>>, modified: Option<Seq<char>>)
    -> ConflictState {
    if original is Some && modified is Some && original == modified {
        ConflictState::Resolved
    } else {
        ConflictState::Unresolved
    }
}

/// Whether a step fails: only if the viewer could not be started for a pair
/// that needs review.
pub open spec fn step_fails(state: ConflictState, event: ConflictEvent) -> bool {
    state == ConflictState::NeedsReview && event is ViewerFailed
}

/// The state after a step. An event that the state does not wait for changes
/// nothing.
pub open spec fn next_state(pair: ConflictView, state: ConflictState, event: ConflictEvent)
    -> ConflictState {
    match (state, event) {
        (ConflictState::Unvalidated, ConflictEvent::Probed { original, modified }) => validated(
            pair,
            original,
            modified,
        ),
        (
            ConflictState::NeedsReview,
            ConflictEvent::Reviewed { original_text, modified_text },
        ) => compared(text_of(original_text), text_of(modified_text)),
        _ => state,
    }
}

/// What is to be done on a step from `state` to `next`. Only a step into a
/// new state asks for anything: into review for the viewer, with the
/// conflict-marked file first; into resolved for the deletion of the
/// conflict-marked file; into resolved-before for a word to the operator.
pub open spec fn action_on(
    pair: ConflictView,
    trash_command: Seq<char>,
    state: ConflictState,
    next: ConflictState,
) -> ActionView {
    if state == next {
        ActionView::Nothing
    } else {
        match next {
            ConflictState::AlreadyResolved => ActionView::Report,
            ConflictState::NeedsReview => ActionView::Review(
                diff_invocation(pair.modifiedfile, pair.originalfile),
            ),
            ConflictState::Resolved => ActionView::Trash(
                trash_invocation(pair.modifiedfile, trash_command),
            ),
            _ => ActionView::Nothing,
        }
    }
}

impl Conflict {
    /// One step in resolving the pair: from `state` and what the caller found
    /// out to the next state and what the caller is to do.
    ///
    /// A pair starts as `Unvalidated` and waits for `Probed`; one that
    /// `NeedsReview` waits for `Reviewed`. The step fails only where the
    /// viewer could not be started for a pair that needs review.
    pub fn handle_conflict(&self, config: &Config, state: ConflictState, event: &ConflictEvent)
        -> (r: Result<(ConflictState, ConflictAction), ResolvethingError>)
        ensures
            step_fails(state, *event) <==> r is Err,
            r matches Err(e) ==> e matches ResolvethingError::Diff(reason) && event
                matches ConflictEvent::ViewerFailed(told) && reason@ == told@,
            r matches Ok((next, action)) ==> next == next_state(self@, state, *event) && action@
                == action_on(self@, config.trash_command@, state, next),
    {
        let next = match (state, event) {
            (ConflictState::NeedsReview, ConflictEvent::ViewerFailed(reason)) => {
                return Err(ResolvethingError::Diff(reason.clone()));
            },
            (ConflictState::Unvalidated, ConflictEvent::Probed { original, modified }) => {
                if self.originalfile == self.modifiedfile {
                    ConflictState::Invalid
                } else if !modified.exists && original.exists {
                    ConflictState::AlreadyResolved
                } else if Self::file_is_valid(original) && Self::file_is_valid(modified) {
                    ConflictState::NeedsReview
                } else {
                    ConflictState::Invalid
                }
            },
            (
                ConflictState::NeedsReview,
                ConflictEvent::Reviewed { original_text, modified_text },
            ) => {
                match (original_text, modified_text) {
                    (Some(original), Some(modified)) => {
                        if *original == *modified {
                            ConflictState::Resolved
                        } else {
                            ConflictState::Unresolved
                        }
                    },
                    _ => ConflictState::Unresolved,
                }
            },
            _ => state,
        };
        let action = if state == next {
            ConflictAction::Nothing
        } else {
            match next {
                ConflictState::AlreadyResolved => ConflictAction::Report,
                ConflictState::NeedsReview => ConflictAction::Review(
                    VimDiff::diff(self.modifiedfile.as_str(), self.originalfile.as_str()),
                ),
                ConflictState::Resolved => ConflictAction::Trash(
                    Trash::trash(self.modifiedfile.as_str(), config),
                ),
                _ => ConflictAction::Nothing,
            }
        };
        Ok((next, action))
    }
}

/// Whether nothing more happens to a pair in `state`.
pub open spec fn settled(state: ConflictState) -> bool {
    state != ConflictState::Unvalidated && state != ConflictState::NeedsReview
}

/// A pair of two paths whose conflict-marked file is gone while the original
/// is there was resolved before: the operator is told, and nothing is
/// deleted.
pub proof fn gone_copy_was_resolved_before(
    pair: ConflictView,
    trash_command: Seq<char>,
    original: FileProbe,
    modified: FileProbe,
)
    requires
        pair.originalfile != pair.modifiedfile,
        !modified.exists,
        original.exists,
    ensures
        next_state(pair, ConflictState::Unvalidated, ConflictEvent::Probed { original, modified })
            == ConflictState::AlreadyResolved,
        action_on(
            pair,
            trash_command,
            ConflictState::Unvalidated,
            ConflictState::AlreadyResolved,
        ) == ActionView::Report,
{
}

/// A reviewed pair whose files hold the same text is resolved, and exactly
/// the conflict-marked file is deleted, with the configured command.
pub proof fn equal_files_resolve(
    pair: ConflictView,
    trash_command: Seq<char>,
    original_text: String,
    modified_text: String,
)
    requires
        original_text@ == modified_text@,
    ensures
        next_state(
            pair,
            ConflictState::NeedsReview,
            ConflictEvent::Reviewed {
                original_text: Some(original_text),
                modified_text: Some(modified_text),
            },
        ) == ConflictState::Resolved,
        action_on(pair, trash_command, ConflictState::NeedsReview, ConflictState::Resolved)
            == ActionView::Trash(trash_invocation(pair.modifiedfile, trash_command)),
{
}

/// Nothing is deleted but on the step from review to resolved, and what is
/// deleted then is the conflict-marked file.
pub proof fn only_resolution_deletes(
    pair: ConflictView,
    trash_command: Seq<char>,
    state: ConflictState,
    event: ConflictEvent,
)
    ensures
        action_on(pair, trash_command, state, next_state(pair, state, event))
            matches ActionView::Trash(call) ==> {
            &&& state == ConflictState::NeedsReview
            &&& next_state(pair, state, event) == ConflictState::Resolved
            &&& call == trash_invocation(pair.modifiedfile, trash_command)
        },
{
}

/// A settled pair stays as it is, whatever is reported, and asks for nothing
/// more: no pair is deleted twice, none is reviewed again.
pub proof fn settled_pairs_stay(
    pair: ConflictView,
    trash_command: Seq<char>,
    state: ConflictState,
    event: ConflictEvent,
)
    requires
        settled(state),
    ensures
        !step_fails(state, event),
        next_state(pair, state, event) == state,
        action_on(pair, trash_command, state, next_state(pair, state, event))
            == ActionView::Nothing,
{
}

/// A pair is settled after at most two steps that change its state: looking
/// at the files leaves it settled or in need of review, and a review leaves it
/// settled.
pub proof fn steps_lead_to_settlement(pair: ConflictView, event: ConflictEvent)
    ensures
        next_state(pair, ConflictState::Unvalidated, event) != ConflictState::Unvalidated
            ==> event is Probed,
        next_state(pair, ConflictState::NeedsReview, event) != ConflictState::NeedsReview
            ==> settled(next_state(pair, ConflictState::NeedsReview, event)),
        event is Probed ==> settled(next_state(pair, ConflictState::Unvalidated, event))
            || next_state(pair, ConflictState::Unvalidated, event) == ConflictState::NeedsReview,
{
}

} // verus!
