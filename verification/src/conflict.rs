//! Conflict-marked files, paired with the files they were copied from, and
//! what is to be done about each pair.

use crate::error::ResolvethingError;
use crate::matcher::{is_marked_as, original_of, type_refused, TypeMatcher};
use crate::text::{contains_segment, has_segment};
use vstd::prelude::*;
use vstd::string::StringExecFns;

verus! {

/// Files larger than this many bytes are left alone.
pub const MAX_FILE_SIZE: u64 = 1_000_000;

/// The name of the directory in which the synchronisation tool keeps old
/// versions. Nothing below a directory of this name is user content.
pub open spec fn versions_dir() -> Seq<char> {
    ".stversions"@
}

/// A conflict-marked file (`modifiedfile`) and the file that it is a changed
/// copy of (`originalfile`).
#[derive(Clone, Debug, PartialEq, Eq)]
pub struct Conflict {
    pub originalfile: String,
    pub modifiedfile: String,
}

/// A pair as plain text.
pub struct ConflictView {
    pub originalfile: Seq<char>,
    pub modifiedfile: Seq<char>,
}

impl View for Conflict {
    type V = ConflictView;

    open spec fn view(&self) -> ConflictView {
        ConflictView { originalfile: self.originalfile@, modifiedfile: self.modifiedfile@ }
    }
}

/// The views of a sequence of pairs.
pub open spec fn pair_views(pairs: Seq<Conflict>) -> Seq<ConflictView> {
    Seq::new(pairs.len(), |i: int| pairs[i]@)
}

/// What was found out about a file by looking at it.
#[derive(Clone, Debug, PartialEq, Eq)]
pub struct FileProbe {
    /// Whether anything is there under the path.
    pub exists: bool,
    /// Whether what is there is a regular file.
    pub is_file: bool,
    /// The size in bytes, where it could be read.
    pub size: Option<u64>,
    /// The bytes of the file, where they could be read.
    pub content: Option<Vec<u8>>,
}

impl FileProbe {
    /// Whether the file can be compared as text: it is a regular file that
    /// could be read, is not larger than `MAX_FILE_SIZE` and holds no zero
    /// byte.
    pub open spec fn valid(&self) -> bool {
        &&& self.exists
        &&& self.is_file
        &&& self.size matches Some(size) && size <= MAX_FILE_SIZE
        &&& self.content matches Some(bytes) && !bytes@.contains(0u8)
    }
}

/// One entry of a directory tree, as the walk came by it.
#[derive(Clone, Debug, PartialEq, Eq)]
pub struct WalkEntry {
    /// The path. Where it is not valid text, its undecodable parts have been
    /// replaced.
    pub path: String,
    /// Whether the path is valid text.
    pub path_is_text: bool,
    /// Whether the entry is a regular file.
    pub is_file: bool,
}

/// An entry as plain text.
pub struct EntryView {
    pub path: Seq<char>,
    pub path_is_text: bool,
    pub is_file: bool,
}

impl View for WalkEntry {
    type V = EntryView;

    open spec fn view(&self) -> EntryView {
        EntryView { path: self.path@, path_is_text: self.path_is_text, is_file: self.is_file }
    }
}

/// The views of a sequence of entries.
pub open spec fn entry_views(entries: Seq<WalkEntry>) -> Seq<EntryView> {
    Seq::new(entries.len(), |i: int| entries[i]@)
}

/// Whether an entry is looked at: it is a regular file and no segment of its
/// path is the version-history directory.
pub open spec fn considered(entry: EntryView) -> bool {
    entry.is_file && !has_segment(entry.path, versions_dir())
}

/// Whether an entry stops a scan: it would be looked at, but its path is not
/// valid text.
pub open spec fn unreadable(entry: EntryView) -> bool {
    considered(entry) && !entry.path_is_text
}

/// Whether none of `entries` stops a scan.
pub open spec fn readable(entries: Seq<EntryView>) -> bool {
    forall|k: int| 0 <= k < entries.len() ==> !unreadable(#[trigger] entries[k])
}

/// Whether a scan of `entries` stops at index `stop`: at the first entry
/// that stops a scan.
pub open spec fn stops_at(entries: Seq<EntryView>, stop: int) -> bool {
    &&& 0 <= stop < entries.len()
    &&& unreadable(entries[stop])
    &&& readable(entries.take(stop))
}

/// The pair that an entry gives rise to, if it is looked at and its path is
/// conflict-marked with the extension `file_type`.
pub open spec fn conflict_of(file_type: Seq<char>, entry: EntryView) -> Option<ConflictView> {
    if considered(entry) && is_marked_as(file_type, entry.path) {
        Some(
            ConflictView {
                originalfile: original_of(file_type, entry.path),
                modifiedfile: entry.path,
            },
        )
    } else {
        None
    }
}

/// The pairs that `entries` give rise to, in their order.
pub open spec fn conflicts_among(file_type: Seq<char>, entries: Seq<EntryView>) -> Seq<
    ConflictView,
> {
    entries.filter_map(|entry: EntryView| conflict_of(file_type, entry))
}

/// Whether one of `bytes` is zero.
pub fn holds_zero(bytes: &Vec<u8>) -> (found: bool)
    ensures
        found == bytes@.contains(0u8),
{
    let mut i: usize = 0;
    while i < bytes.len()
        invariant
            i <= bytes.len(),
            forall|k: int| 0 <= k < i ==> bytes@[k] != 0u8,
        decreases bytes.len() - i,
    {
        if bytes[i] == 0u8 {
            assert(bytes@[i as int] == 0u8);
            return true;
        }
        i += 1;
    }
    false
}

impl Conflict {
    /// The pair of `originalfile` and its conflict-marked copy `modifiedfile`.
    pub fn new(originalfile: String, modifiedfile: String) -> (pair: Self)
        ensures
            pair.originalfile == originalfile,
            pair.modifiedfile == modifiedfile,
    {
        Conflict { originalfile, modifiedfile }
    }

    /// Two lines for the operator that name the files of the pair.
    pub fn print(&self) -> (lines: String)
        ensures
            lines@ == pair_lines(self@),
    {
        String::from_str("Original file: ").concat(self.originalfile.as_str()).concat("\n").concat(
            "Modified file: ",
        ).concat(self.modifiedfile.as_str()).concat("\n")
    }

    /// Whether a file that was looked at can be compared as text.
    pub fn file_is_valid(probe: &FileProbe) -> (valid: bool)
        ensures
            valid == probe.valid(),
    {
        if !probe.exists || !probe.is_file {
            return false;
        }
        match probe.size {
            Some(size) => {
                if size > MAX_FILE_SIZE {
                    return false;
                }
            },
            None => {
                return false;
            },
        }
        match &probe.content {
            Some(bytes) => !holds_zero(bytes),
            None => false,
        }
    }

    /// Whether the pair can be resolved by comparing its files: they are two
    /// files, and each can be compared as text.
    pub fn is_valid(&self, original: &FileProbe, modified: &FileProbe) -> (valid: bool)
        ensures
            valid == (self@.originalfile != self@.modifiedfile && original.valid()
                && modified.valid()),
    {
        self.originalfile != self.modifiedfile && Self::file_is_valid(original)
            && Self::file_is_valid(modified)
    }
}

/// Finds the conflict-marked files among the entries of a directory tree.
#[derive(Debug)]
pub struct ConflictFinder {
    /// The directory whose tree is searched.
    pub directory: String,
    /// The pairs found so far.
    pub conflicts: Vec<Conflict>,
}

impl View for ConflictFinder {
    type V = Seq<ConflictView>;

    open spec fn view(&self) -> Seq<ConflictView> {
        pair_views(self.conflicts@)
    }
}

impl ConflictFinder {
    /// A finder for `directory` that holds no pair yet.
    pub fn new(directory: String) -> (finder: Self)
        ensures
            finder.directory == directory,
            finder@.len() == 0,
    {
        ConflictFinder { directory, conflicts: Vec::new() }
    }

    /// Adds the pairs that `entries`, the entries of the tree under the
    /// directory, give rise to for the extension of `matcher`, in their
    /// order, behind the pairs already held.
    ///
    /// An entry that would be looked at but whose path is not valid text stops
    /// the scan with `InvalidPath`, which names it: the pairs of the entries
    /// before it have been added, none of a later one.
    pub fn find_conflicts_with(&mut self, matcher: &TypeMatcher, entries: &Vec<WalkEntry>) -> (r:
        Result<(), ResolvethingError>)
        ensures
            final(self).directory == old(self).directory,
            r is Ok <==> readable(entry_views(entries@)),
            r is Ok ==> final(self)@ == old(self)@ + conflicts_among(
                matcher.file_type(),
                entry_views(entries@),
            ),
            r matches Err(e) ==> exists|stop: int|
                {
                    &&& #[trigger] stops_at(entry_views(entries@), stop)
                    &&& e matches ResolvethingError::InvalidPath(path) && path@
                        == entries@[stop].path@
                    &&& final(self)@ == old(self)@ + conflicts_among(
                        matcher.file_type(),
                        entry_views(entries@).take(stop),
                    )
                },
    {
        let ghost all = entry_views(entries@);
        let ghost before = self@;
        let ghost file_type = matcher.file_type();
        let mut i: usize = 0;
        assert(all.take(0) == Seq::<EntryView>::empty());
        assert(before + conflicts_among(file_type, all.take(0)) == before);
        while i < entries.len()
            invariant
                all == entry_views(entries@),
                before == old(self)@,
                file_type == matcher.file_type(),
                self.directory == old(self).directory,
                i <= entries.len(),
                readable(all.take(i as int)),
                self@ == before + conflicts_among(file_type, all.take(i as int)),
            decreases entries.len() - i,
        {
            let entry = &entries[i];
            assert(all[i as int] == entry@);
            assert(all.take(i + 1).drop_last() == all.take(i as int));
            assert(all.take(i + 1).last() == entry@);
            let skipped = contains_segment(entry.path.as_str(), ".stversions");
            if !skipped && entry.is_file {
                if !entry.path_is_text {
                    assert(stops_at(all, i as int));
                    return Err(ResolvethingError::InvalidPath(entry.path.clone()));
                }
                if matcher.is_marked(entry.path.as_str()) {
                    let originalfile = matcher.original(entry.path.as_str());
                    let ghost held = self@;
                    let pair = Conflict::new(originalfile, entry.path.clone());
                    assert(conflict_of(file_type, entry@) == Some(pair@));
                    self.conflicts.push(pair);
                    assert(self@ == held.push(pair@));
                }
            }
            assert forall|k: int| 0 <= k < i + 1 implies !unreadable(
                #[trigger] all.take(i + 1)[k],
            ) by {
                if k < i {
                    assert(all.take(i + 1)[k] == all.take(i as int)[k]);
                }
            }
            i += 1;
        }
        assert(all.take(entries@.len() as int) == all);
        Ok(())
    }

    /// As `find_conflicts_with`, with the expressions of `file_type` compiled
    /// for it where there is an entry: then the scan also fails, with
    /// `Pattern` and with nothing added, if the expression engine refuses one
    /// of them.
    pub fn find_conflicts(&mut self, file_type: &str, entries: &Vec<WalkEntry>) -> (r: Result<
        (),
        ResolvethingError,
    >)
        ensures
            final(self).directory == old(self).directory,
            r is Ok ==> readable(entry_views(entries@)) && final(self)@ == old(self)@
                + conflicts_among(file_type@, entry_views(entries@)),
            r matches Err(ResolvethingError::InvalidPath(path)) ==> exists|stop: int|
                {
                    &&& #[trigger] stops_at(entry_views(entries@), stop)
                    &&& path@ == entries@[stop].path@
                    &&& final(self)@ == old(self)@ + conflicts_among(
                        file_type@,
                        entry_views(entries@).take(stop),
                    )
                },
            r matches Err(ResolvethingError::Pattern(_)) ==> final(self).conflicts == old(
                self,
            ).conflicts,
            r matches Err(e) ==> e is InvalidPath || type_refused(file_type@, e),
            entries@.len() == 0 ==> r is Ok,
    {
        if entries.len() == 0 {
            assert(self@ + conflicts_among(file_type@, entry_views(entries@)) == self@);
            return Ok(());
        }
        match TypeMatcher::new(file_type) {
            Ok(matcher) => self.find_conflicts_with(&matcher, entries),
            Err(e) => Err(e),
        }
    }

    /// Two lines for each pair held, in order, that name its files.
    pub fn print_conflicts(&self) -> (lines: String)
        ensures
            lines@ == listing(self@),
    {
        let mut lines = String::new();
        let mut i: usize = 0;
        assert(self@.take(0) == Seq::<ConflictView>::empty());
        while i < self.conflicts.len()
            invariant
                i <= self.conflicts.len(),
                lines@ == listing(self@.take(i as int)),
            decreases self.conflicts.len() - i,
        {
            assert(self@.take(i + 1).drop_last() == self@.take(i as int));
            assert(self@.take(i + 1).last() == self.conflicts@[i as int]@);
            let two = self.conflicts[i].print();
            lines.append(two.as_str());
            i += 1;
        }
        assert(self@.take(self.conflicts@.len() as int) == self@);
        lines
    }
}

/// The two lines that name the files of a pair.
pub open spec fn pair_lines(pair: ConflictView) -> Seq<char> {
    "Original file: "@ + pair.originalfile + "\n"@ + "Modified file: "@ + pair.modifiedfile
        + "\n"@
}

/// The lines that name the files of `pairs`, pair after pair.
pub open spec fn listing(pairs: Seq<ConflictView>) -> Seq<char>
    decreases pairs.len(),
{
    if pairs.len() == 0 {
        Seq::empty()
    } else {
        listing(pairs.drop_last()) + pair_lines(pairs.last())
    }
}

/// An entry below a version-history directory gives rise to no pair,
/// whatever its name.
pub proof fn versions_are_never_matched(file_type: Seq<char>, entry: EntryView)
    requires
        has_segment(entry.path, versions_dir()),
    ensures
        conflict_of(file_type, entry) is None,
{
}

/// Every pair that a scan finds comes from one of the entries: a regular
/// file outside the version-history directories whose path is
/// conflict-marked. That path is the pair's conflict-marked file, and the
/// original's path is derived from it.
pub proof fn pairs_come_from_entries(file_type: Seq<char>, entries: Seq<EntryView>)
    ensures
        forall|i: int|
            0 <= i < conflicts_among(file_type, entries).len() ==> {
                let pair = #[trigger] conflicts_among(file_type, entries)[i];
                &&& from_entry(file_type, entries, pair)
                &&& !has_segment(pair.modifiedfile, versions_dir())
                &&& pair.originalfile == original_of(file_type, pair.modifiedfile)
            },
    decreases entries.len(),
{
    if entries.len() > 0 {
        let rest = entries.drop_last();
        pairs_come_from_entries(file_type, rest);
        let found = conflicts_among(file_type, entries);
        assert forall|i: int| 0 <= i < found.len() implies from_entry(
            file_type,
            entries,
            #[trigger] found[i],
        ) by {
            if i < conflicts_among(file_type, rest).len() {
                let pair = conflicts_among(file_type, rest)[i];
                assert(from_entry(file_type, rest, pair));
                let k = choose|k: int|
                    0 <= k < rest.len() && conflict_of(file_type, #[trigger] rest[k]) == Some(
                        pair,
                    );
                assert(entries[k] == rest[k]);
            } else {
                assert(entries[entries.len() - 1] == entries.last());
            }
        }
    }
}

/// Whether `pair` is the pair that one of `entries` gives rise to.
pub open spec fn from_entry(file_type: Seq<char>, entries: Seq<EntryView>, pair: ConflictView)
    -> bool {
    exists|k: int|
        0 <= k < entries.len() && conflict_of(file_type, #[trigger] entries[k]) == Some(pair)
}

} // verus!
