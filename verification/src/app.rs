//! The two passes over a working directory: duplicates first, then
//! conflicts.
//!
//! The caller runs the tools and walks the tree; what it finds goes through
//! these functions, and what they answer is carried out by the caller.

use crate::config::Config;
use crate::conflict::{
    conflicts_among,
    entry_views,
    pair_views,
    readable,
    stops_at,
    Conflict,
    ConflictFinder,
    ConflictView,
    EntryView,
    WalkEntry,
};
use crate::duplicates::{
    classified_groups,
    discovered,
    discovery_arguments,
    discovery_failure,
    disposal,
    selection,
    Duplicate,
    FclonesRunner,
    FileView,
};
use crate::error::ResolvethingError;
use crate::invocation::{invocation_views, Invocation, Outcome};
use crate::matcher::Patterns;
use crate::text::text_of;
use vstd::prelude::*;

verus! {

/// Coordinates the resolution of duplicates and of conflicts under one
/// configuration.
#[derive(Debug)]
pub struct App {
    pub config: Config,
}

/// What is to happen to a group of duplicates.
#[derive(Debug)]
pub enum GroupStep {
    /// The file to keep is settled: carry out these trash commands, each
    /// whatever became of the others.
    Keep { keep: String, trash: Vec<Invocation> },
    /// Somebody has to pick the file to keep from these paths.
    Ask(Vec<String>),
}

/// What both passes found. Neither pass waits for the other to succeed.
#[derive(Debug)]
pub struct Passes {
    pub duplicates: Result<Vec<Duplicate>, ResolvethingError>,
    pub conflicts: Result<Vec<Conflict>, ResolvethingError>,
}

/// The views of a sequence of groups.
pub open spec fn group_views(groups: Seq<Duplicate>) -> Seq<Seq<FileView>> {
    Seq::new(groups.len(), |i: int| groups[i]@)
}

/// The pairs that `entries` give rise to for the extensions whose conflicts
/// are resolved: first those of `md` files, then those of `json` files.
pub open spec fn tracked_conflicts(entries: Seq<EntryView>) -> Seq<ConflictView> {
    conflicts_among("md"@, entries) + conflicts_among("json"@, entries)
}

/// Whether `found` is what the duplicate pass comes to for a run of the
/// search: a run that is of no use fails the pass with the reason; of any
/// other run, the groups that it lists are found, each file with its
/// category.
pub open spec fn duplicate_pass(
    outcome: Outcome,
    found: Result<Vec<Duplicate>, ResolvethingError>,
) -> bool {
    match discovery_failure(outcome) {
        Some(reason) => found matches Err(ResolvethingError::Duplicate(told)) && told@ == reason,
        None => {
            &&& found matches Ok(groups)
            &&& group_views(groups@) == classified_groups(discovered(outcome))
            &&& forall|i: int| 0 <= i < groups@.len() ==> (#[trigger] groups@[i]).wf()
        },
    }
}

/// Whether `found` is what the conflict pass comes to for the entries of a
/// tree: the pairs of the tracked extensions where no entry stops a scan, and
/// else a failure that names the first entry that does.
pub open spec fn conflict_pass(
    entries: Seq<EntryView>,
    found: Result<Vec<Conflict>, ResolvethingError>,
) -> bool {
    if readable(entries) {
        found matches Ok(pairs) && pair_views(pairs@) == tracked_conflicts(entries)
    } else {
        found matches Err(ResolvethingError::InvalidPath(path)) && exists|stop: int| #[trigger]
            stops_at(entries, stop) && path@ == entries[stop].path
    }
}

impl App {
    /// The passes under `config`.
    pub fn new(config: Config) -> (app: Self)
        ensures
            app.config == config,
    {
        App { config }
    }

    /// The command line that searches the working directory for duplicates.
    pub fn duplicate_search(&self) -> (call: Invocation)
        ensures
            call@.program == "fclones"@,
            call@.arguments == discovery_arguments(self.config.working_directory@),
    {
        FclonesRunner::command(self.config.working_directory.as_str())
    }

    /// The groups of duplicates that a run of `duplicate_search` lists. A
    /// run that is of no use fails the pass.
    pub fn run_duplicate(&self, patterns: &Patterns, outcome: &Outcome) -> (r: Result<
        Vec<Duplicate>,
        ResolvethingError,
    >)
        ensures
            duplicate_pass(*outcome, r),
    {
        let mut runner = FclonesRunner::new();
        match runner.run_recursively_with(patterns.marker(), outcome) {
            Ok(()) => {
                assert(runner@ == classified_groups(discovered(*outcome)));
                assert(group_views(runner.duplicate_groups@) == runner@);
                Ok(runner.duplicate_groups)
            },
            Err(e) => Err(e),
        }
    }

    /// What is to happen to `group`: where the categories of its files settle
    /// which one to keep, the others are deleted; otherwise somebody is asked
    /// to pick from all of its paths.
    pub fn settle(&self, group: &Duplicate) -> (step: GroupStep)
        ensures
            match selection(group@) {
                Some(kept) => step matches GroupStep::Keep { keep, trash } && keep@ == kept
                    && invocation_views(trash@) == disposal(
                    group@,
                    kept,
                    self.config.trash_command@,
                ),
                None => step matches GroupStep::Ask(paths) && paths@.len() == group@.len()
                    && forall|i: int|
                    0 <= i < paths@.len() ==> (#[trigger] paths@[i])@ == group@[i].path,
            },
    {
        match group.try_auto_select() {
            Some(keep) => {
                let trash = group.keep_only(keep.clone(), &self.config);
                GroupStep::Keep { keep, trash }
            },
            None => GroupStep::Ask(group.paths()),
        }
    }

    /// What is to happen to `group` once somebody was asked: the files other
    /// than the one picked are deleted; where nothing was picked, nothing
    /// is.
    pub fn settle_with(&self, group: &Duplicate, choice: Option<String>) -> (calls: Vec<
        Invocation,
    >)
        ensures
            match text_of(choice) {
                Some(keep) => invocation_views(calls@) == disposal(
                    group@,
                    keep,
                    self.config.trash_command@,
                ),
                None => calls@.len() == 0,
            },
    {
        match choice {
            Some(keep) => group.keep_only(keep, &self.config),
            None => Vec::new(),
        }
    }

    /// The conflict pairs among `entries`, the entries of the tree under the
    /// working directory: those of each tracked extension in turn. An entry
    /// that stops a scan fails the pass.
    pub fn run_conflicts(&self, patterns: &Patterns, entries: &Vec<WalkEntry>) -> (r: Result<
        Vec<Conflict>,
        ResolvethingError,
    >)
        ensures
            conflict_pass(entry_views(entries@), r),
    {
        let mut finder = ConflictFinder::new(self.config.working_directory.clone());
        match finder.find_conflicts_with(patterns.markdown(), entries) {
            Ok(()) => {},
            Err(e) => {
                return Err(e);
            },
        }
        match finder.find_conflicts_with(patterns.json(), entries) {
            Ok(()) => {},
            Err(e) => {
                return Err(e);
            },
        }
        assert(finder@ == tracked_conflicts(entry_views(entries@)));
        Ok(finder.conflicts)
    }

    /// Both passes. Each comes to what it comes to alone: a failure of one
    /// does not keep the other from being carried out.
    pub fn run_all(&self, patterns: &Patterns, outcome: &Outcome, entries: &Vec<WalkEntry>) -> (passes:
        Passes)
        ensures
            duplicate_pass(*outcome, passes.duplicates),
            conflict_pass(entry_views(entries@), passes.conflicts),
    {
        let duplicates = self.run_duplicate(patterns, outcome);
        let conflicts = self.run_conflicts(patterns, entries);
        Passes { duplicates, conflicts }
    }
}

} // verus!
