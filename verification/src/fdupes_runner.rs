//! The output of a duplicate-discovery tool: groups of paths, one path on a
//! line, with a blank line after each group.

use crate::invocation::{Invocation, Outcome};
use crate::text::{decode, lines, lines_of, texts};
use vstd::prelude::*;
use vstd::string::StringExecFns;
use vstd::utf8::{decode_utf8, valid_utf8};

verus! {

/// The number of lines before the first blank line, or the number of all
/// lines if none is blank.
pub open spec fn run_len(lines: Seq<Seq<char>>) -> nat
    decreases lines.len(),
{
    if lines.len() == 0 || lines[0].len() == 0 {
        0
    } else {
        1 + run_len(lines.drop_first())
    }
}

/// A run of lines is no longer than the lines it is taken from.
pub proof fn lemma_run_len_bound(lines: Seq<Seq<char>>)
    ensures
        run_len(lines) <= lines.len(),
    decreases lines.len(),
{
    if lines.len() > 0 && lines[0].len() > 0 {
        lemma_run_len_bound(lines.drop_first());
    }
}

/// The groups among `lines`: each is a longest stretch of lines that follow
/// one another without a blank line between them.
pub open spec fn groups_of(lines: Seq<Seq<char>>) -> Seq<Seq<Seq<char>>>
    decreases lines.len(),
{
    if lines.len() == 0 {
        Seq::empty()
    } else {
        let n = run_len(lines);
        if n == 0 {
            groups_of(lines.drop_first())
        } else {
            proof {
                lemma_run_len_bound(lines);
            }
            seq![lines.take(n as int)] + groups_of(lines.skip(n as int))
        }
    }
}

/// `run_len` is the position of the first blank line.
pub proof fn lemma_run_len(lines: Seq<Seq<char>>, k: int)
    requires
        0 <= k <= lines.len(),
        forall|j: int| 0 <= j < k ==> lines[j].len() > 0,
        k == lines.len() || lines[k].len() == 0,
    ensures
        run_len(lines) == k,
    decreases k,
{
    if k > 0 {
        lemma_run_len(lines.drop_first(), k - 1);
    }
}

/// The groups of `open + rest`, where `open` holds no blank line and `rest`
/// starts with one: `open` is the first group, unless it is empty.
proof fn lemma_group_closed(open: Seq<Seq<char>>, rest: Seq<Seq<char>>)
    requires
        forall|j: int| 0 <= j < open.len() ==> open[j].len() > 0,
        rest.len() > 0,
        rest[0].len() == 0,
    ensures
        groups_of(open + rest) == if open.len() > 0 {
            seq![open] + groups_of(rest.drop_first())
        } else {
            groups_of(rest.drop_first())
        },
{
    let all = open + rest;
    lemma_run_len(all, open.len() as int);
    lemma_run_len(rest, 0);
    assert(groups_of(rest) == groups_of(rest.drop_first()));
    if open.len() > 0 {
        assert(all.take(open.len() as int) == open);
        assert(all.skip(open.len() as int) == rest);
    } else {
        assert(all == rest);
    }
}

/// The groups of lines of which none is blank: all of them as one group,
/// unless there is no line.
proof fn lemma_group_open(open: Seq<Seq<char>>)
    requires
        forall|j: int| 0 <= j < open.len() ==> open[j].len() > 0,
    ensures
        groups_of(open) == if open.len() > 0 {
            seq![open]
        } else {
            Seq::empty()
        },
{
    lemma_run_len(open, open.len() as int);
    if open.len() > 0 {
        assert(open.take(open.len() as int) == open);
        assert(groups_of(open.skip(open.len() as int)) == Seq::<Seq<Seq<char>>>::empty());
        assert(seq![open] + Seq::<Seq<Seq<char>>>::empty() == seq![open]);
    }
}

/// The texts of groups of strings.
pub open spec fn group_texts(groups: Seq<Vec<String>>) -> Seq<Seq<Seq<char>>> {
    Seq::new(groups.len(), |i: int| texts(groups[i]@))
}

/// Reads the groups of paths out of `output`.
pub fn parse_groups(output: &str) -> (groups: Vec<Vec<String>>)
    ensures
        group_texts(groups@) == groups_of(lines_of(output@)),
{
    let all = lines(output);
    let ghost whole = texts(all@);
    let mut groups: Vec<Vec<String>> = Vec::new();
    let mut current: Vec<String> = Vec::new();
    let mut i: usize = 0;
    proof {
        assert(texts(current@) + whole.skip(0) == whole);
        assert(group_texts(groups@) + groups_of(whole) == groups_of(whole));
    }
    while i < all.len()
        invariant
            whole == texts(all@),
            i <= all.len(),
            forall|j: int| 0 <= j < current@.len() ==> current@[j]@.len() > 0,
            groups_of(whole) == group_texts(groups@) + groups_of(
                texts(current@) + whole.skip(i as int),
            ),
        decreases all.len() - i,
    {
        let line = all[i].clone();
        let ghost open = texts(current@);
        let ghost rest = whole.skip(i as int);
        let ghost done = group_texts(groups@);
        assert(rest[0] == line@);
        assert(rest.drop_first() == whole.skip(i + 1));
        if line.as_str().is_empty() {
            proof {
                lemma_group_closed(open, rest);
            }
            if current.len() > 0 {
                groups.push(current);
                current = Vec::new();
                proof {
                    assert(group_texts(groups@) == done + seq![open]);
                    assert(texts(current@) + whole.skip(i + 1) == whole.skip(i + 1));
                }
            } else {
                assert(open + whole.skip(i + 1) == whole.skip(i + 1));
            }
        } else {
            current.push(line);
            proof {
                assert(texts(current@) == open.push(line@));
                assert(texts(current@) + whole.skip(i + 1) == open + rest);
            }
        }
        i += 1;
    }
    proof {
        assert(texts(current@) + whole.skip(i as int) == texts(current@));
        lemma_group_open(texts(current@));
    }
    if current.len() > 0 {
        let ghost done = group_texts(groups@);
        let ghost open = texts(current@);
        groups.push(current);
        assert(group_texts(groups@) == done + seq![open]);
    } else {
        assert(group_texts(groups@) + Seq::<Seq<Seq<char>>>::empty() == group_texts(groups@));
    }
    groups
}

/// Why a run of the discovery tool `tool` is of no use, if it is of none: it
/// did not start, it reported failure, or what it wrote is not text.
pub open spec fn run_failure(tool: Seq<char>, outcome: Outcome) -> Option<Seq<char>> {
    match outcome {
        Outcome::NotStarted(reason) => Some("Failed to execute "@ + tool + ": "@ + reason@),
        Outcome::Exited { succeeded, status, stdout, stderr } => if !succeeded {
            Some(tool + " failed with status: "@ + status@)
        } else if !valid_utf8(stdout@) {
            Some("Failed to parse "@ + tool + " output: invalid UTF-8"@)
        } else {
            None
        },
    }
}

/// What a run of a discovery tool wrote, as text.
pub open spec fn run_output(outcome: Outcome) -> Seq<char> {
    match outcome {
        Outcome::NotStarted(_) => Seq::empty(),
        Outcome::Exited { succeeded, status, stdout, stderr } => decode_utf8(stdout@),
    }
}

/// What a run of the discovery tool `tool` wrote, or why the run is of no
/// use.
pub fn read_run(tool: &str, outcome: &Outcome) -> (r: Result<String, String>)
    ensures
        match run_failure(tool@, *outcome) {
            Some(reason) => r matches Err(told) && told@ == reason,
            None => r matches Ok(output) && output@ == run_output(*outcome),
        },
{
    match outcome {
        Outcome::NotStarted(reason) => Err(
            String::from_str("Failed to execute ").concat(tool).concat(": ").concat(
                reason.as_str(),
            ),
        ),
        Outcome::Exited { succeeded, status, stdout, stderr } => {
            if !*succeeded {
                return Err(
                    String::from_str(tool).concat(" failed with status: ").concat(status.as_str()),
                );
            }
            match decode(stdout) {
                Some(output) => Ok(output),
                None => Err(
                    String::from_str("Failed to parse ").concat(tool).concat(
                        " output: invalid UTF-8",
                    ),
                ),
            }
        },
    }
}

/// Collects the groups of duplicates that `fdupes` reports.
#[derive(Debug)]
pub struct FdupesRunner {
    pub duplicate_groups: Vec<Vec<String>>,
}

impl FdupesRunner {
    /// A runner that holds no group yet.
    pub fn new() -> (runner: Self)
        ensures
            runner.duplicate_groups@.len() == 0,
    {
        FdupesRunner { duplicate_groups: Vec::new() }
    }

    /// The command line that searches `directory` and all below it for
    /// duplicates.
    pub fn command(directory: &str) -> (call: Invocation)
        ensures
            call@.program == "fdupes"@,
            call@.arguments == seq!["-r"@, directory@],
    {
        let mut arguments: Vec<String> = Vec::new();
        arguments.push(String::from_str("-r"));
        arguments.push(String::from_str(directory));
        let call = Invocation { program: String::from_str("fdupes"), arguments };
        assert(call@.arguments =~= seq!["-r"@, directory@]);
        call
    }

    /// Takes in what a run of `command` came to: the groups that a run of use
    /// lists are added as `parse_output` adds them; a run of no use adds
    /// nothing and is reported with the reason.
    pub fn run_recursively(&mut self, outcome: &Outcome) -> (r: Result<(), String>)
        ensures
            match run_failure("fdupes"@, *outcome) {
                Some(reason) => r matches Err(told) && told@ == reason
                    && final(self).duplicate_groups == old(self).duplicate_groups,
                None => r is Ok && group_texts(final(self).duplicate_groups@) == group_texts(
                    old(self).duplicate_groups@,
                ) + groups_of(lines_of(run_output(*outcome))),
            },
    {
        match read_run("fdupes", outcome) {
            Ok(output) => {
                self.parse_output(output.as_str());
                Ok(())
            },
            Err(reason) => Err(reason),
        }
    }

    /// Adds the groups that `output` lists, in the order in which it lists
    /// them, behind those already held.
    pub fn parse_output(&mut self, output: &str)
        ensures
            group_texts(final(self).duplicate_groups@) == group_texts(old(self).duplicate_groups@)
                + groups_of(lines_of(output@)),
    {
        let mut found = parse_groups(output);
        let ghost before = group_texts(self.duplicate_groups@);
        let ghost added = group_texts(found@);
        self.duplicate_groups.append(&mut found);
        assert(group_texts(self.duplicate_groups@) == before + added);
    }
}

/// Whether `group` holds a line, and no blank line.
pub open spec fn solid(group: Seq<Seq<char>>) -> bool {
    group.len() > 0 && forall|j: int| 0 <= j < group.len() ==> (#[trigger] group[j]).len() > 0
}

/// No group is empty, and none holds a blank line.
pub proof fn groups_hold_no_blank_line(lines: Seq<Seq<char>>)
    ensures
        forall|i: int| 0 <= i < groups_of(lines).len() ==> solid(#[trigger] groups_of(lines)[i]),
    decreases lines.len(),
{
    if lines.len() > 0 {
        let n = run_len(lines);
        if n == 0 {
            groups_hold_no_blank_line(lines.drop_first());
            assert(groups_of(lines) == groups_of(lines.drop_first()));
        } else {
            lemma_run_len_bound(lines);
            lemma_run_holds_no_blank_line(lines);
            groups_hold_no_blank_line(lines.skip(n as int));
            let first = lines.take(n as int);
            let rest = groups_of(lines.skip(n as int));
            assert(solid(first));
            assert forall|i: int| 0 <= i < groups_of(lines).len() implies solid(
                #[trigger] groups_of(lines)[i],
            ) by {
                if i > 0 {
                    assert(groups_of(lines)[i] == rest[i - 1]);
                }
            }
        }
    }
}

/// No line of a run is blank.
proof fn lemma_run_holds_no_blank_line(lines: Seq<Seq<char>>)
    ensures
        forall|j: int| 0 <= j < run_len(lines) ==> (#[trigger] lines[j]).len() > 0,
    decreases lines.len(),
{
    lemma_run_len_bound(lines);
    if lines.len() > 0 && lines[0].len() > 0 {
        lemma_run_holds_no_blank_line(lines.drop_first());
        lemma_run_len_bound(lines.drop_first());
        assert forall|j: int| 0 <= j < run_len(lines) implies (#[trigger] lines[j]).len() > 0 by {
            if j > 0 {
                assert(lines[j] == lines.drop_first()[j - 1]);
            }
        }
    }
}

/// The lines of `groups`, group after group.
pub open spec fn members(groups: Seq<Seq<Seq<char>>>) -> Seq<Seq<char>>
    decreases groups.len(),
{
    if groups.len() == 0 {
        Seq::empty()
    } else {
        groups[0] + members(groups.drop_first())
    }
}

/// `lines` without the blank ones.
pub open spec fn filled(lines: Seq<Seq<char>>) -> Seq<Seq<char>>
    decreases lines.len(),
{
    if lines.len() == 0 {
        Seq::empty()
    } else if lines[0].len() == 0 {
        filled(lines.drop_first())
    } else {
        seq![lines[0]] + filled(lines.drop_first())
    }
}

/// The groups hold every line that is not blank, once and in the order of the
/// lines: grouping loses nothing and moves nothing.
pub proof fn groups_keep_every_line(lines: Seq<Seq<char>>)
    ensures
        members(groups_of(lines)) == filled(lines),
    decreases lines.len(),
{
    if lines.len() > 0 {
        let n = run_len(lines) as int;
        if n == 0 {
            groups_keep_every_line(lines.drop_first());
            assert(groups_of(lines) == groups_of(lines.drop_first()));
        } else {
            lemma_run_len_bound(lines);
            lemma_filled_run(lines);
            groups_keep_every_line(lines.skip(n));
            let rest = groups_of(lines.skip(n));
            let all = seq![lines.take(n)] + rest;
            assert(all[0] == lines.take(n));
            assert(all.drop_first() == rest);
        }
    }
}

/// The lines that are not blank are those of the first run, then those of
/// what follows it.
proof fn lemma_filled_run(lines: Seq<Seq<char>>)
    ensures
        run_len(lines) <= lines.len(),
        filled(lines) == lines.take(run_len(lines) as int) + filled(
            lines.skip(run_len(lines) as int),
        ),
    decreases lines.len(),
{
    lemma_run_len_bound(lines);
    if lines.len() > 0 && lines[0].len() > 0 {
        let tail = lines.drop_first();
        let n = run_len(lines) as int;
        lemma_filled_run(tail);
        assert(seq![lines[0]] + tail.take(n - 1) == lines.take(n));
        assert(tail.skip(n - 1) == lines.skip(n));
    } else {
        assert(lines.take(0) + filled(lines) == filled(lines));
        assert(lines.skip(0) == lines);
    }
}

} // verus!
