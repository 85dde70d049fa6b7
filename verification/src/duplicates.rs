//! Files that a synchronisation tool left behind, sorted into categories, and
//! groups of identical files of which one is to survive.

use crate::config::Config;
use crate::error::ResolvethingError;
use crate::fdupes_runner::{
    group_texts,
    groups_of,
    parse_groups,
    read_run,
    run_failure,
    run_output,
};
use crate::invocation::{invocation_views, Invocation, InvocationView, Outcome};
use crate::matcher::{is_marked, marker_refused, ConflictMatcher};
use crate::text::{ends_with, lines_of, text_of, texts};
use crate::trash::{trash_invocation, Trash};
use vstd::prelude::*;
use vstd::string::StringExecFns;

verus! {

/// The category of a path.
#[derive(Clone, Copy, Debug, PartialEq, Eq, Structural)]
pub enum SyncThingFileType {
    /// None of the others.
    Regular,
    /// The path carries a conflict marker.
    StConflict,
    /// A backup: the path ends in `.orig`.
    OrigFile,
    /// A temporary file: the path ends in `.tmp`.
    TmpFile,
}

/// A path with its category.
#[derive(Clone, Debug)]
pub struct SyncThingFile {
    pub path: String,
    pub file_type: SyncThingFileType,
}

/// A classified file as plain text.
pub struct FileView {
    pub path: Seq<char>,
    pub file_type: SyncThingFileType,
}

impl View for SyncThingFile {
    type V = FileView;

    open spec fn view(&self) -> FileView {
        FileView { path: self.path@, file_type: self.file_type }
    }
}

/// The category of `path`, given whether it carries a conflict marker. The
/// marker comes first, then the suffix `.orig`, then the suffix `.tmp`.
pub open spec fn file_type_of(marked: bool, path: Seq<char>) -> SyncThingFileType {
    if marked {
        SyncThingFileType::StConflict
    } else if ".orig"@.is_suffix_of(path) {
        SyncThingFileType::OrigFile
    } else if ".tmp"@.is_suffix_of(path) {
        SyncThingFileType::TmpFile
    } else {
        SyncThingFileType::Regular
    }
}

/// The category of `path`.
pub open spec fn classify(path: Seq<char>) -> SyncThingFileType {
    file_type_of(is_marked(path), path)
}

/// Each of `paths` with its category.
pub open spec fn classified(paths: Seq<Seq<char>>) -> Seq<FileView> {
    Seq::new(paths.len(), |i: int| FileView { path: paths[i], file_type: classify(paths[i]) })
}

impl SyncThingFile {
    /// Whether the category is the one that the path calls for.
    pub open spec fn wf(&self) -> bool {
        self.file_type == classify(self.path@)
    }

    /// The category of `file`, given whether the conflict expression matched
    /// it.
    pub fn classify(marked: bool, file: &str) -> (file_type: SyncThingFileType)
        ensures
            file_type == file_type_of(marked, file@),
    {
        if marked {
            SyncThingFileType::StConflict
        } else if ends_with(file, ".orig") {
            SyncThingFileType::OrigFile
        } else if ends_with(file, ".tmp") {
            SyncThingFileType::TmpFile
        } else {
            SyncThingFileType::Regular
        }
    }

    /// The category of `file`, as the compiled conflict expression tells it.
    pub fn get_file_type_with(matcher: &ConflictMatcher, file: &str) -> (file_type:
        SyncThingFileType)
        ensures
            file_type == classify(file@),
    {
        Self::classify(matcher.is_marked(file), file)
    }

    /// The category of `file`. The conflict expression is compiled for it:
    /// the call fails only if the expression engine refuses that expression.
    /// `get_file_type_with` does the same with an expression compiled before.
    pub fn get_file_type(file: &str) -> (r: Result<SyncThingFileType, ResolvethingError>)
        ensures
            r matches Ok(file_type) ==> file_type == classify(file@),
            r matches Err(e) ==> marker_refused(e),
    {
        match ConflictMatcher::new() {
            Ok(matcher) => Ok(Self::get_file_type_with(&matcher, file)),
            Err(e) => Err(e),
        }
    }

    /// `path` with its category, as the compiled conflict expression tells
    /// it.
    pub fn new_with(matcher: &ConflictMatcher, path: String) -> (file: Self)
        ensures
            file.path == path,
            file.wf(),
    {
        let file_type = Self::get_file_type_with(matcher, path.as_str());
        SyncThingFile { path, file_type }
    }

    /// `path` with its category. The conflict expression is compiled for it:
    /// the call fails only if the expression engine refuses that expression.
    /// `new_with` does the same with an expression compiled before.
    pub fn new(path: String) -> (r: Result<Self, ResolvethingError>)
        ensures
            r matches Ok(file) ==> file.path == path && file.wf(),
            r matches Err(e) ==> marker_refused(e),
    {
        match ConflictMatcher::new() {
            Ok(matcher) => Ok(Self::new_with(&matcher, path)),
            Err(e) => Err(e),
        }
    }
}

/// A group of files that hold the same bytes.
#[derive(Debug)]
pub struct Duplicate {
    pub files: Vec<SyncThingFile>,
}

impl View for Duplicate {
    type V = Seq<FileView>;

    open spec fn view(&self) -> Seq<FileView> {
        Seq::new(self.files@.len(), |i: int| self.files@[i]@)
    }
}

/// The number of `files` of category `file_type`.
pub open spec fn count_of(files: Seq<FileView>, file_type: SyncThingFileType) -> nat
    decreases files.len(),
{
    if files.len() == 0 {
        0
    } else {
        count_of(files.drop_last(), file_type) + if files.last().file_type == file_type {
            1nat
        } else {
            0nat
        }
    }
}

/// The path of the first of `files` that has category `file_type`, if there
/// is one.
pub open spec fn first_of(files: Seq<FileView>, file_type: SyncThingFileType) -> Option<
    Seq<char>,
>
    decreases files.len(),
{
    if files.len() == 0 {
        None
    } else if first_of(files.drop_last(), file_type) is Some {
        first_of(files.drop_last(), file_type)
    } else if files.last().file_type == file_type {
        Some(files.last().path)
    } else {
        None
    }
}

/// The file of a group that survives without anybody being asked, if the
/// categories of its files settle that:
/// - the one regular file of a group of several files;
/// - else the one conflict file of a group whose other files are all
///   temporary;
/// - else the first file of a group of temporary files only;
/// - else the first file of a group of conflict files only.
pub open spec fn selection(files: Seq<FileView>) -> Option<Seq<char>> {
    let regular = count_of(files, SyncThingFileType::Regular);
    let conflicts = count_of(files, SyncThingFileType::StConflict);
    let temporary = count_of(files, SyncThingFileType::TmpFile);
    if files.len() == 0 {
        None
    } else if regular == 1 && files.len() > 1 {
        first_of(files, SyncThingFileType::Regular)
    } else if conflicts == 1 && temporary + 1 == files.len() {
        first_of(files, SyncThingFileType::StConflict)
    } else if temporary == files.len() {
        first_of(files, SyncThingFileType::TmpFile)
    } else if conflicts == files.len() {
        first_of(files, SyncThingFileType::StConflict)
    } else {
        None
    }
}

impl Duplicate {
    /// Whether each file has the category that its path calls for.
    pub open spec fn wf(&self) -> bool {
        forall|i: int| 0 <= i < self.files@.len() ==> (#[trigger] self.files@[i]).wf()
    }

    /// The group of `file_paths`, in their order, each with the category that
    /// the compiled conflict expression tells.
    pub fn new_with(matcher: &ConflictMatcher, file_paths: &Vec<String>) -> (group: Self)
        ensures
            group@ == classified(texts(file_paths@)),
            group.wf(),
    {
        let mut files: Vec<SyncThingFile> = Vec::new();
        let mut i: usize = 0;
        while i < file_paths.len()
            invariant
                i <= file_paths.len(),
                files@.len() == i,
                forall|k: int| 0 <= k < i ==> (#[trigger] files@[k]).path == file_paths@[k],
                forall|k: int| 0 <= k < i ==> (#[trigger] files@[k]).wf(),
            decreases file_paths.len() - i,
        {
            files.push(SyncThingFile::new_with(matcher, file_paths[i].clone()));
            i += 1;
        }
        let group = Duplicate { files };
        assert(group@ =~= classified(texts(file_paths@)));
        group
    }

    /// The group of `file_paths`, in their order. The conflict expression is
    /// compiled for it, unless the group is empty: the call fails only if the
    /// expression engine refuses that expression. `new_with` does the same
    /// with an expression compiled before.
    pub fn new(file_paths: Vec<String>) -> (r: Result<Self, ResolvethingError>)
        ensures
            r matches Ok(group) ==> group@ == classified(texts(file_paths@)) && group.wf(),
            r matches Err(e) ==> marker_refused(e),
            file_paths@.len() == 0 ==> r is Ok,
    {
        if file_paths.len() == 0 {
            let group = Duplicate { files: Vec::new() };
            assert(group@ =~= classified(texts(file_paths@)));
            return Ok(group);
        }
        match ConflictMatcher::new() {
            Ok(matcher) => Ok(Self::new_with(&matcher, &file_paths)),
            Err(e) => Err(e),
        }
    }

    /// The paths of the group, in order: what a person is asked to pick from
    /// when `try_auto_select` settles nothing.
    pub fn paths(&self) -> (paths: Vec<String>)
        ensures
            paths@.len() == self@.len(),
            forall|i: int| 0 <= i < paths@.len() ==> (#[trigger] paths@[i])@ == self@[i].path,
    {
        let mut paths: Vec<String> = Vec::new();
        let mut i: usize = 0;
        while i < self.files.len()
            invariant
                i <= self.files.len(),
                paths@.len() == i,
                forall|k: int| 0 <= k < i ==> (#[trigger] paths@[k])@ == self@[k].path,
            decreases self.files.len() - i,
        {
            paths.push(self.files[i].path.clone());
            i += 1;
        }
        paths
    }

    /// The path of the file to keep, where the categories of the files settle
    /// it; `None` where somebody has to be asked.
    pub fn try_auto_select(&self) -> (choice: Option<String>)
        ensures
            text_of(choice) == selection(self@),
    {
        let n = self.files.len();
        let mut regular: usize = 0;
        let mut conflicts: usize = 0;
        let mut temporary: usize = 0;
        let mut first_regular: Option<usize> = None;
        let mut first_conflict: Option<usize> = None;
        let mut first_temporary: Option<usize> = None;
        let mut i: usize = 0;
        while i < n
            invariant
                n == self.files.len(),
                i <= n,
                regular == count_of(self@.take(i as int), SyncThingFileType::Regular),
                conflicts == count_of(self@.take(i as int), SyncThingFileType::StConflict),
                temporary == count_of(self@.take(i as int), SyncThingFileType::TmpFile),
                regular <= i,
                conflicts <= i,
                temporary <= i,
                found(self@, i as int, SyncThingFileType::Regular, first_regular),
                found(self@, i as int, SyncThingFileType::StConflict, first_conflict),
                found(self@, i as int, SyncThingFileType::TmpFile, first_temporary),
            decreases n - i,
        {
            assert(self@.take(i + 1).drop_last() == self@.take(i as int));
            match self.files[i].file_type {
                SyncThingFileType::Regular => {
                    regular += 1;
                    if first_regular.is_none() {
                        first_regular = Some(i);
                    }
                },
                SyncThingFileType::StConflict => {
                    conflicts += 1;
                    if first_conflict.is_none() {
                        first_conflict = Some(i);
                    }
                },
                SyncThingFileType::TmpFile => {
                    temporary += 1;
                    if first_temporary.is_none() {
                        first_temporary = Some(i);
                    }
                },
                SyncThingFileType::OrigFile => {},
            }
            i += 1;
        }
        assert(self@.take(n as int) == self@);
        let keep: Option<usize> = if n == 0 {
            None
        } else if regular == 1 && n > 1 {
            first_regular
        } else if conflicts == 1 && temporary == n - 1 {
            first_conflict
        } else if temporary == n {
            first_temporary
        } else if conflicts == n {
            first_conflict
        } else {
            None
        };
        match keep {
            Some(k) => Some(self.files[k].path.clone()),
            None => None,
        }
    }
}

/// The paths of the `files` other than `keep`, in order.
pub open spec fn discarded(files: Seq<FileView>, keep: Seq<char>) -> Seq<Seq<char>> {
    files.filter_map(
        |file: FileView|
            if file.path != keep {
                Some(file.path)
            } else {
                None
            },
    )
}

/// The trash commands, one for each of the `files` other than `keep`, in
/// order.
pub open spec fn disposal(files: Seq<FileView>, keep: Seq<char>, trash_command: Seq<char>) -> Seq<
    InvocationView,
> {
    Seq::new(
        discarded(files, keep).len(),
        |i: int| trash_invocation(discarded(files, keep)[i], trash_command),
    )
}

impl Duplicate {
    /// How to dispose of every file of the group but `keep`: one trash
    /// command for each file whose path is not exactly `keep`, in the order
    /// of the group. Each is to be carried out whatever became of the others.
    pub fn keep_only(&self, keep: String, config: &Config) -> (calls: Vec<Invocation>)
        ensures
            invocation_views(calls@) == disposal(self@, keep@, config.trash_command@),
    {
        let mut calls: Vec<Invocation> = Vec::new();
        let mut i: usize = 0;
        while i < self.files.len()
            invariant
                i <= self.files.len(),
                invocation_views(calls@) == disposal(
                    self@.take(i as int),
                    keep@,
                    config.trash_command@,
                ),
            decreases self.files.len() - i,
        {
            assert(self@.take(i + 1).drop_last() == self@.take(i as int));
            if self.files[i].path != keep {
                let ghost before = invocation_views(calls@);
                let call = Trash::trash(self.files[i].path.as_str(), config);
                calls.push(call);
                assert(invocation_views(calls@) == before.push(call@));
            }
            i += 1;
        }
        assert(self@.take(self.files.len() as int) == self@);
        calls
    }
}

/// Collects the groups of duplicates that `fclones` reports.
#[derive(Debug)]
pub struct FclonesRunner {
    pub duplicate_groups: Vec<Duplicate>,
}

impl View for FclonesRunner {
    type V = Seq<Seq<FileView>>;

    open spec fn view(&self) -> Seq<Seq<FileView>> {
        Seq::new(self.duplicate_groups@.len(), |i: int| self.duplicate_groups@[i]@)
    }
}

/// Each of `groups` with the categories of its paths.
pub open spec fn classified_groups(groups: Seq<Seq<Seq<char>>>) -> Seq<Seq<FileView>> {
    Seq::new(groups.len(), |i: int| classified(groups[i]))
}

/// How `fclones` is asked for the duplicates under `directory`: hidden files
/// included, the version-history directories left out, the groups written
/// one path on a line.
pub open spec fn discovery_arguments(directory: Seq<char>) -> Seq<Seq<char>> {
    seq![
        "group"@,
        "--hidden"@,
        directory,
        "--format"@,
        "fdupes"@,
        "--cache"@,
        "--exclude"@,
        "**/.stversions/**"@,
    ]
}

/// Why a run of `fclones` is of no use, if it is of none: it did not start,
/// it reported failure, or what it wrote is not text.
pub open spec fn discovery_failure(outcome: Outcome) -> Option<Seq<char>> {
    run_failure("fclones"@, outcome)
}

/// The groups that a run of `fclones` lists.
pub open spec fn discovered(outcome: Outcome) -> Seq<Seq<Seq<char>>> {
    groups_of(lines_of(run_output(outcome)))
}

impl FclonesRunner {
    /// Whether each file of each group has the category that its path calls
    /// for.
    pub open spec fn wf(&self) -> bool {
        forall|i: int|
            0 <= i < self.duplicate_groups@.len() ==> (#[trigger] self.duplicate_groups@[i]).wf()
    }

    /// A runner that holds no group yet.
    pub fn new() -> (runner: Self)
        ensures
            runner@.len() == 0,
            runner.wf(),
    {
        FclonesRunner { duplicate_groups: Vec::new() }
    }

    /// The command line that searches `directory` for duplicates.
    pub fn command(directory: &str) -> (call: Invocation)
        ensures
            call@.program == "fclones"@,
            call@.arguments == discovery_arguments(directory@),
    {
        let mut arguments: Vec<String> = Vec::new();
        arguments.push(String::from_str("group"));
        arguments.push(String::from_str("--hidden"));
        arguments.push(String::from_str(directory));
        arguments.push(String::from_str("--format"));
        arguments.push(String::from_str("fdupes"));
        arguments.push(String::from_str("--cache"));
        arguments.push(String::from_str("--exclude"));
        arguments.push(String::from_str("**/.stversions/**"));
        let call = Invocation { program: String::from_str("fclones"), arguments };
        assert(call@.arguments =~= discovery_arguments(directory@));
        call
    }

    /// Takes in what a run of `command` came to. A run that is of no use
    /// fails the whole search, and no group is added. Of a run that is of use
    /// the groups are added as `parse_output_with` adds them.
    pub fn run_recursively_with(&mut self, matcher: &ConflictMatcher, outcome: &Outcome) -> (r:
        Result<(), ResolvethingError>)
        ensures
            match discovery_failure(*outcome) {
                Some(reason) => r matches Err(ResolvethingError::Duplicate(told)) && told@
                    == reason && final(self).duplicate_groups == old(self).duplicate_groups,
                None => r is Ok && final(self)@ == old(self)@ + classified_groups(
                    discovered(*outcome),
                ),
            },
            old(self).wf() ==> final(self).wf(),
    {
        match read_run("fclones", outcome) {
            Ok(output) => {
                self.parse_output_with(matcher, output.as_str());
                Ok(())
            },
            Err(reason) => Err(ResolvethingError::Duplicate(reason)),
        }
    }

    /// As `run_recursively_with`, with the conflict expression compiled for
    /// it where the run lists a group: then the call also fails, and adds
    /// nothing, if the expression engine refuses that expression.
    pub fn run_recursively(&mut self, outcome: &Outcome) -> (r: Result<(), ResolvethingError>)
        ensures
            discovery_failure(*outcome) matches Some(reason) ==> r matches Err(
                ResolvethingError::Duplicate(told),
            ) && told@ == reason,
            discovery_failure(*outcome) is None ==> !(r matches Err(
                ResolvethingError::Duplicate(_),
            )),
            r is Ok ==> final(self)@ == old(self)@ + classified_groups(discovered(*outcome)),
            r is Ok && old(self).wf() ==> final(self).wf(),
            r is Err ==> final(self).duplicate_groups == old(self).duplicate_groups,
            r matches Err(e) ==> e is Duplicate || marker_refused(e),
            discovery_failure(*outcome) is None && discovered(*outcome).len() == 0 ==> r is Ok,
    {
        match read_run("fclones", outcome) {
            Ok(output) => self.parse_output(output.as_str()),
            Err(reason) => Err(ResolvethingError::Duplicate(reason)),
        }
    }

    /// Adds the groups that `output` lists, in the order in which it lists
    /// them, behind those already held, each path with the category that the
    /// compiled conflict expression tells.
    pub fn parse_output_with(&mut self, matcher: &ConflictMatcher, output: &str)
        ensures
            final(self)@ == old(self)@ + classified_groups(groups_of(lines_of(output@))),
            old(self).wf() ==> final(self).wf(),
    {
        let groups = parse_groups(output);
        self.add_groups(matcher, &groups);
    }

    /// Adds `groups`, in their order, behind those already held.
    fn add_groups(&mut self, matcher: &ConflictMatcher, groups: &Vec<Vec<String>>)
        ensures
            final(self)@ == old(self)@ + classified_groups(group_texts(groups@)),
            old(self).wf() ==> final(self).wf(),
    {
        let ghost listed = group_texts(groups@);
        let mut i: usize = 0;
        assert(self@ + classified_groups(listed).take(0) == self@);
        while i < groups.len()
            invariant
                listed == group_texts(groups@),
                i <= groups.len(),
                self@ == old(self)@ + classified_groups(listed).take(i as int),
                old(self).wf() ==> self.wf(),
            decreases groups.len() - i,
        {
            let ghost before = self@;
            let group = Duplicate::new_with(matcher, &groups[i]);
            assert(group@ == classified_groups(listed)[i as int]);
            self.duplicate_groups.push(group);
            assert(self@ == before.push(group@));
            assert(classified_groups(listed).take(i + 1) == classified_groups(listed).take(
                i as int,
            ).push(group@));
            i += 1;
        }
        assert(classified_groups(listed).take(groups.len() as int) == classified_groups(listed));
    }

    /// As `parse_output_with`, with the conflict expression compiled for it
    /// where `output` lists a group: then the call fails, and adds nothing,
    /// if the expression engine refuses that expression.
    pub fn parse_output(&mut self, output: &str) -> (r: Result<(), ResolvethingError>)
        ensures
            r is Ok ==> final(self)@ == old(self)@ + classified_groups(
                groups_of(lines_of(output@)),
            ),
            r is Ok && old(self).wf() ==> final(self).wf(),
            r matches Err(e) ==> marker_refused(e) && final(self).duplicate_groups
                == old(self).duplicate_groups,
            groups_of(lines_of(output@)).len() == 0 ==> r is Ok,
    {
        let groups = parse_groups(output);
        if groups.len() == 0 {
            assert(self@ + classified_groups(groups_of(lines_of(output@))) == self@);
            return Ok(());
        }
        match ConflictMatcher::new() {
            Ok(matcher) => {
                self.add_groups(&matcher, &groups);
                Ok(())
            },
            Err(e) => Err(e),
        }
    }
}

/// Whether `first` is where the first file of category `file_type` stands
/// among the first `upto` of `files`.
pub open spec fn found(
    files: Seq<FileView>,
    upto: int,
    file_type: SyncThingFileType,
    first: Option<usize>,
) -> bool {
    match first {
        Some(k) => k < upto && first_of(files.take(upto), file_type) == Some(files[k as int].path),
        None => first_of(files.take(upto), file_type) is None,
    }
}

/// A path that carries a conflict marker is a conflict file, whatever it
/// ends with.
pub proof fn marked_path_is_conflict(path: Seq<char>)
    requires
        is_marked(path),
    ensures
        classify(path) == SyncThingFileType::StConflict,
{
}

/// A path without a conflict marker goes by its end: `.orig` makes it a
/// backup, `.tmp` a temporary file, anything else a regular file. No path
/// ends both ways, so the two suffixes never compete.
pub proof fn unmarked_path_goes_by_suffix(path: Seq<char>)
    requires
        !is_marked(path),
    ensures
        ".orig"@.is_suffix_of(path) ==> classify(path) == SyncThingFileType::OrigFile,
        ".tmp"@.is_suffix_of(path) ==> classify(path) == SyncThingFileType::TmpFile,
        !".orig"@.is_suffix_of(path) && !".tmp"@.is_suffix_of(path) ==> classify(path)
            == SyncThingFileType::Regular,
        !(".orig"@.is_suffix_of(path) && ".tmp"@.is_suffix_of(path)),
{
    reveal_strlit(".orig");
    reveal_strlit(".tmp");
    if ".orig"@.is_suffix_of(path) && ".tmp"@.is_suffix_of(path) {
        let n = path.len() as int;
        assert(path.subrange(n - 5, n)[4] == 'g');
        assert(path.subrange(n - 4, n)[3] == 'p');
    }
}

/// Whether the file at index `at` is the earliest of `files` that has
/// category `file_type`.
pub open spec fn earliest(files: Seq<FileView>, file_type: SyncThingFileType, at: int) -> bool {
    &&& 0 <= at < files.len()
    &&& files[at].file_type == file_type
    &&& forall|j: int| 0 <= j < at ==> (#[trigger] files[j]).file_type != file_type
}

/// The first file of a category is the earliest file of the group that has
/// this category; there is none only where no file has it.
pub proof fn first_of_is_earliest(files: Seq<FileView>, file_type: SyncThingFileType)
    ensures
        match first_of(files, file_type) {
            Some(path) => exists|at: int| #[trigger]
                earliest(files, file_type, at) && files[at].path == path,
            None => forall|j: int|
                0 <= j < files.len() ==> (#[trigger] files[j]).file_type != file_type,
        },
    decreases files.len(),
{
    if files.len() > 0 {
        let before = files.drop_last();
        first_of_is_earliest(before, file_type);
        assert forall|j: int| 0 <= j < before.len() implies before[j] == files[j] by {}
        match first_of(before, file_type) {
            Some(path) => {
                let at = choose|at: int| #[trigger]
                    earliest(before, file_type, at) && before[at].path == path;
                assert(earliest(files, file_type, at));
            },
            None => {
                if files.last().file_type == file_type {
                    assert(earliest(files, file_type, files.len() - 1));
                }
            },
        }
    }
}

/// The file that is kept without asking is always one of the group.
pub proof fn selection_is_member(files: Seq<FileView>)
    ensures
        selection(files) matches Some(path) ==> exists|i: int|
            0 <= i < files.len() && (#[trigger] files[i]).path == path,
{
    first_of_is_earliest(files, SyncThingFileType::Regular);
    first_of_is_earliest(files, SyncThingFileType::StConflict);
    first_of_is_earliest(files, SyncThingFileType::TmpFile);
}

/// Asking a group twice gives the same answer: two answers that
/// `try_auto_select` may give for one group name the same file, or both name
/// none.
pub proof fn selection_is_repeatable(
    group: Duplicate,
    first: Option<String>,
    second: Option<String>,
)
    requires
        text_of(first) == selection(group@),
        text_of(second) == selection(group@),
    ensures
        text_of(first) == text_of(second),
{
}

/// The file to keep is never among those to delete, and every file under
/// another path is.
pub proof fn discarded_is_all_but_kept(files: Seq<FileView>, keep: Seq<char>)
    ensures
        forall|i: int| 0 <= i < discarded(files, keep).len() ==> discarded(files, keep)[i] != keep,
        forall|j: int|
            0 <= j < files.len() && (#[trigger] files[j]).path != keep ==> discarded(
                files,
                keep,
            ).contains(files[j].path),
    decreases files.len(),
{
    if files.len() > 0 {
        let rest = files.drop_last();
        discarded_is_all_but_kept(rest, keep);
        assert forall|j: int| 0 <= j < files.len() && (#[trigger] files[j]).path != keep implies
            discarded(files, keep).contains(files[j].path) by {
            if j < files.len() - 1 {
                assert(rest[j] == files[j]);
                let at = choose|at: int|
                    0 <= at < discarded(rest, keep).len() && discarded(rest, keep)[at]
                        == files[j].path;
                assert(discarded(files, keep)[at] == files[j].path);
            } else {
                assert(discarded(files, keep)[discarded(rest, keep).len() as int]
                    == files[j].path);
            }
        }
    }
}

} // verus!
