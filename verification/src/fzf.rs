//! Asking a person to pick one of several paths, with `fzf`.

use crate::invocation::{Invocation, Outcome};
use crate::text::{decode, holds, text_of, texts};
use vstd::prelude::*;
use vstd::string::StringExecFns;
use vstd::utf8::{decode_utf8, valid_utf8};

verus! {

/// The picker, `fzf`.
pub struct Fzf;

/// Terminals narrower than this show the preview below the list.
pub const NARROW_COLUMNS: u16 = 80;

/// Where the preview goes: below the list on a terminal known to be narrow,
/// to its right otherwise.
pub open spec fn preview_window(columns: Option<u16>) -> Seq<char> {
    if columns matches Some(n) && n < NARROW_COLUMNS {
        "down:50%"@
    } else {
        "right:50%"@
    }
}

/// What is written to the picker: each item, followed by a line feed.
pub open spec fn offered(items: Seq<Seq<char>>) -> Seq<char>
    decreases items.len(),
{
    if items.len() == 0 {
        Seq::empty()
    } else {
        offered(items.drop_last()) + items.last() + "\n"@
    }
}

/// The number of bytes before the first line feed, or the number of all
/// bytes if none is a line feed.
pub open spec fn first_line_len(bytes: Seq<u8>) -> nat
    decreases bytes.len(),
{
    if bytes.len() == 0 || bytes[0] == 10u8 {
        0
    } else {
        1 + first_line_len(bytes.drop_first())
    }
}

/// The first line of `bytes`: what stands before the first line feed, without
/// a carriage return that directly precedes that line feed.
pub open spec fn first_line_of(bytes: Seq<u8>) -> Seq<u8> {
    let n = first_line_len(bytes) as int;
    if 0 < n < bytes.len() && bytes[n - 1] == 13u8 {
        bytes.take(n - 1)
    } else {
        bytes.take(n)
    }
}

/// What the person picked, as the picker's outcome tells it: the first line
/// that a successful picker wrote, if that line is text, is not empty and is
/// one of `items`.
pub open spec fn picked(items: Seq<Seq<char>>, outcome: Outcome) -> Option<Seq<char>> {
    match outcome {
        Outcome::NotStarted(_) => None,
        Outcome::Exited { succeeded, status, stdout, stderr } => {
            let line = first_line_of(stdout@);
            if succeeded && valid_utf8(line) && decode_utf8(line).len() > 0 && items.contains(
                decode_utf8(line),
            ) {
                Some(decode_utf8(line))
            } else {
                None
            }
        },
    }
}

/// `first_line_len` is the position of the first line feed.
proof fn lemma_first_line_len(bytes: Seq<u8>, k: int)
    requires
        0 <= k <= bytes.len(),
        forall|j: int| 0 <= j < k ==> bytes[j] != 10u8,
        k == bytes.len() || bytes[k] == 10u8,
    ensures
        first_line_len(bytes) == k,
    decreases k,
{
    if k > 0 {
        lemma_first_line_len(bytes.drop_first(), k - 1);
    }
}

/// The first line of `bytes`.
fn first_line(bytes: &Vec<u8>) -> (line: Vec<u8>)
    ensures
        line@ == first_line_of(bytes@),
{
    let mut end: usize = 0;
    while end < bytes.len() && bytes[end] != 10u8
        invariant
            end <= bytes.len(),
            forall|j: int| 0 <= j < end ==> bytes@[j] != 10u8,
        decreases bytes.len() - end,
    {
        end += 1;
    }
    proof {
        lemma_first_line_len(bytes@, end as int);
    }
    let stop: usize = if 0 < end && end < bytes.len() && bytes[end - 1] == 13u8 {
        (end - 1) as usize
    } else {
        end
    };
    let mut line: Vec<u8> = Vec::new();
    let mut i: usize = 0;
    while i < stop
        invariant
            i <= stop <= bytes.len(),
            line@ == bytes@.take(i as int),
        decreases stop - i,
    {
        line.push(bytes[i]);
        i += 1;
    }
    line
}

impl Fzf {
    /// The command line of the picker for a terminal of `columns` columns,
    /// `None` where the width is not known. Each path is previewed with
    /// `bat`.
    pub fn command(columns: Option<u16>) -> (call: Invocation)
        ensures
            call@.program == "fzf"@,
            call@.arguments == seq![
                "--preview"@,
                "bat --style=plain --paging=never --color=always {}"@,
                "--preview-window"@,
                preview_window(columns),
            ],
    {
        let narrow = match columns {
            Some(n) => n < NARROW_COLUMNS,
            None => false,
        };
        let window = if narrow {
            String::from_str("down:50%")
        } else {
            String::from_str("right:50%")
        };
        let mut arguments: Vec<String> = Vec::new();
        arguments.push(String::from_str("--preview"));
        arguments.push(String::from_str("bat --style=plain --paging=never --color=always {}"));
        arguments.push(String::from_str("--preview-window"));
        arguments.push(window);
        let call = Invocation { program: String::from_str("fzf"), arguments };
        assert(call@.arguments =~= seq![
            "--preview"@,
            "bat --style=plain --paging=never --color=always {}"@,
            "--preview-window"@,
            preview_window(columns),
        ]);
        call
    }

    /// What to write to the picker so that it offers `items`.
    pub fn input(items: &Vec<String>) -> (text: String)
        ensures
            text@ == offered(texts(items@)),
    {
        let mut text = String::new();
        let mut i: usize = 0;
        assert(texts(items@).take(0) == Seq::<Seq<char>>::empty());
        while i < items.len()
            invariant
                i <= items.len(),
                text@ == offered(texts(items@).take(i as int)),
            decreases items.len() - i,
        {
            assert(texts(items@).take(i + 1).drop_last() == texts(items@).take(i as int));
            assert(texts(items@).take(i + 1).last() == items@[i as int]@);
            text.append(items[i].as_str());
            text.append("\n");
            i += 1;
        }
        assert(texts(items@).take(items@.len() as int) == texts(items@));
        text
    }

    /// The item that the person picked, if the picker's outcome names one of
    /// `items`; `None` where the person picked nothing.
    pub fn select(items: &Vec<String>, outcome: &Outcome) -> (choice: Option<String>)
        ensures
            text_of(choice) == picked(texts(items@), *outcome),
    {
        match outcome {
            Outcome::NotStarted(_) => None,
            Outcome::Exited { succeeded, status, stdout, stderr } => {
                if !*succeeded {
                    return None;
                }
                let line = first_line(stdout);
                match decode(&line) {
                    Some(selected) => {
                        if selected.as_str().is_empty() {
                            return None;
                        }
                        if holds(items, &selected) {
                            Some(selected)
                        } else {
                            None
                        }
                    },
                    None => None,
                }
            },
        }
    }
}

} // verus!
