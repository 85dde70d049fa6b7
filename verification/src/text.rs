//! Strings as sequences of characters: conversion, suffixes, lines and path
//! segments.

use vstd::prelude::*;
use vstd::utf8::{decode_utf8, valid_utf8};

verus! {

/// `String::push` appends one character to the end of the string.
pub assume_specification[ String::push ](s: &mut String, ch: char)
    ensures
        final(s)@ == old(s)@.push(ch),
;

/// Decodes `bytes` with `String::from_utf8`: the text is handed back exactly
/// when the bytes are well-formed UTF-8, and it then holds the characters that
/// they encode.
#[verifier::external_body]
pub(crate) fn decode(bytes: &Vec<u8>) -> (r: Option<String>)
    ensures
        r is Some <==> valid_utf8(bytes@),
        r matches Some(s) ==> s@ == decode_utf8(bytes@),
{
    String::from_utf8(bytes.clone()).ok()
}

/// What `String::from_utf8_lossy` makes of `bytes`.
pub uninterp spec fn lossy_text(bytes: Seq<u8>) -> Seq<char>;

/// Decodes `bytes` with `String::from_utf8_lossy`, which never fails: what is
/// not well-formed UTF-8 is replaced. Well-formed bytes come out as the
/// characters that they encode.
#[verifier::external_body]
pub(crate) fn decode_lossy(bytes: &Vec<u8>) -> (s: String)
    ensures
        s@ == lossy_text(bytes@),
        valid_utf8(bytes@) ==> s@ == decode_utf8(bytes@),
{
    String::from_utf8_lossy(bytes).into_owned()
}

/// The characters of `s`, in order.
pub fn chars_of(s: &str) -> (v: Vec<char>)
    ensures
        v@ == s@,
{
    let mut v: Vec<char> = Vec::new();
    for c in it: s.chars()
        invariant
            it.seq() == s@,
            v@ == it.seq().take(it.index()),
    {
        v.push(c);
    }
    v
}

/// The string made of `chars[from..to]`.
pub fn string_of(chars: &Vec<char>, from: usize, to: usize) -> (s: String)
    requires
        from <= to <= chars.len(),
    ensures
        s@ == chars@.subrange(from as int, to as int),
{
    let mut s = String::new();
    let mut i: usize = from;
    while i < to
        invariant
            from <= i <= to <= chars.len(),
            s@ == chars@.subrange(from as int, i as int),
        decreases to - i,
    {
        s.push(chars[i]);
        i += 1;
    }
    s
}

/// Whether the characters of `part` stand in `whole` from index `at` on.
pub fn occurs_at(whole: &Vec<char>, at: usize, part: &Vec<char>) -> (b: bool)
    requires
        at + part.len() <= whole.len(),
    ensures
        b == (whole@.subrange(at as int, at + part.len()) == part@),
{
    let mut i: usize = 0;
    while i < part.len()
        invariant
            at + part.len() <= whole.len(),
            i <= part.len(),
            forall|k: int| 0 <= k < i ==> part@[k] == whole@[at + k],
        decreases part.len() - i,
    {
        if part[i] != whole[at + i] {
            assert(whole@.subrange(at as int, at + part.len())[i as int] == whole@[at + i]);
            return false;
        }
        i += 1;
    }
    assert(part@ =~= whole@.subrange(at as int, at + part.len()));
    true
}

/// Whether `text` ends with the characters of `suffix`.
pub fn ends_with(text: &str, suffix: &str) -> (b: bool)
    ensures
        b == suffix@.is_suffix_of(text@),
{
    let t = chars_of(text);
    let s = chars_of(suffix);
    if s.len() > t.len() {
        return false;
    }
    occurs_at(&t, t.len() - s.len(), &s)
}

/// Whether `name` stands in `path` at index `at` as a whole segment: with a
/// separator, or an end of the path, on either side.
pub open spec fn segment_at(path: Seq<char>, at: int, name: Seq<char>) -> bool {
    &&& 0 <= at
    &&& at + name.len() <= path.len()
    &&& path.subrange(at, at + name.len()) == name
    &&& (at == 0 || path[at - 1] == '/')
    &&& (at + name.len() == path.len() || path[at + name.len()] == '/')
}

/// Whether one of the segments of `path` is `name`.
pub open spec fn has_segment(path: Seq<char>, name: Seq<char>) -> bool {
    exists|at: int| segment_at(path, at, name)
}

/// Whether one of the segments of `path`, which `/` separates, is `name`.
pub fn contains_segment(path: &str, name: &str) -> (b: bool)
    ensures
        b == has_segment(path@, name@),
{
    let p = chars_of(path);
    let m = chars_of(name);
    if m.len() > p.len() {
        return false;
    }
    let last: usize = p.len() - m.len();
    let mut at: usize = 0;
    loop
        invariant
            p@ == path@,
            m@ == name@,
            last + m.len() == p.len(),
            at <= last,
            forall|k: int| 0 <= k < at ==> !segment_at(p@, k, m@),
        decreases last - at,
    {
        let opens = at == 0 || p[at - 1] == '/';
        let closes = at == last || p[at + m.len()] == '/';
        if opens && closes && occurs_at(&p, at, &m) {
            assert(segment_at(p@, at as int, m@));
            return true;
        }
        if at == last {
            return false;
        }
        at += 1;
    }
}

/// The views of a sequence of strings.
pub open spec fn texts(strings: Seq<String>) -> Seq<Seq<char>> {
    Seq::new(strings.len(), |i: int| strings[i]@)
}

/// The text of an optional string.
pub open spec fn text_of(s: Option<String>) -> Option<Seq<char>> {
    match s {
        Some(s) => Some(s@),
        None => None,
    }
}

/// Whether one of `items` is `text`.
pub fn holds(items: &Vec<String>, text: &String) -> (found: bool)
    ensures
        found == texts(items@).contains(text@),
{
    let mut i: usize = 0;
    while i < items.len()
        invariant
            i <= items.len(),
            forall|k: int| 0 <= k < i ==> texts(items@)[k] != text@,
        decreases items.len() - i,
    {
        if items[i] == *text {
            assert(texts(items@)[i as int] == text@);
            return true;
        }
        i += 1;
    }
    false
}

/// The number of characters before the first line feed of `s`, or the length
/// of `s` if it holds none.
pub open spec fn line_len(s: Seq<char>) -> nat
    decreases s.len(),
{
    if s.len() == 0 || s[0] == '\n' {
        0
    } else {
        1 + line_len(s.drop_first())
    }
}

/// `line` without its last character, if that is a carriage return.
pub open spec fn without_cr(line: Seq<char>) -> Seq<char> {
    if line.len() > 0 && line.last() == '\r' {
        line.drop_last()
    } else {
        line
    }
}

/// The lines of `s`. A line ends at a line feed, which is not part of it, nor
/// is a carriage return directly before that line feed. What follows the last
/// line feed is a line of its own unless it is empty.
pub open spec fn lines_of(s: Seq<char>) -> Seq<Seq<char>>
    decreases s.len(),
{
    if s.len() == 0 {
        Seq::empty()
    } else {
        let n = line_len(s);
        if n < s.len() {
            seq![without_cr(s.take(n as int))] + lines_of(s.skip(n as int + 1))
        } else {
            seq![s]
        }
    }
}

/// `line_len` is the position of the first line feed.
pub proof fn lemma_line_len(s: Seq<char>, k: int)
    requires
        0 <= k <= s.len(),
        forall|j: int| 0 <= j < k ==> s[j] != '\n',
        k == s.len() || s[k] == '\n',
    ensures
        line_len(s) == k,
    decreases k,
{
    if k > 0 {
        lemma_line_len(s.drop_first(), k - 1);
    }
}

/// Splits `text` into its lines.
pub fn lines(text: &str) -> (out: Vec<String>)
    ensures
        texts(out@) == lines_of(text@),
{
    let chars = chars_of(text);
    let n = chars.len();
    let mut out: Vec<String> = Vec::new();
    let mut start: usize = 0;
    proof {
        assert(text@.skip(0) == text@);
        assert(texts(out@) + lines_of(text@) == lines_of(text@));
    }
    while start < n
        invariant
            chars@ == text@,
            n == chars.len(),
            start <= n,
            lines_of(text@) == texts(out@) + lines_of(text@.skip(start as int)),
        decreases n - start,
    {
        let mut end: usize = start;
        while end < n && chars[end] != '\n'
            invariant
                n == chars.len(),
                start <= end <= n,
                forall|j: int| start <= j < end ==> chars@[j] != '\n',
            decreases n - end,
        {
            end += 1;
        }
        let ghost rest = text@.skip(start as int);
        let ghost before = texts(out@);
        proof {
            lemma_line_len(rest, end - start);
            assert(rest.take(end - start) == chars@.subrange(start as int, end as int));
        }
        if end < n {
            let stop: usize = if end > start && chars[end - 1] == '\r' {
                (end - 1) as usize
            } else {
                end
            };
            let line = string_of(&chars, start, stop);
            out.push(line);
            proof {
                let raw = chars@.subrange(start as int, end as int);
                assert(line@ == without_cr(raw));
                assert(rest.skip(end - start + 1) == text@.skip(end + 1));
                assert(texts(out@) == before + seq![line@]);
            }
            start = end + 1;
        } else {
            let line = string_of(&chars, start, end);
            out.push(line);
            proof {
                assert(line@ == rest);
                assert(texts(out@) == before + seq![line@]);
                assert(text@.skip(n as int) == Seq::<char>::empty());
            }
            start = end;
        }
    }
    proof {
        assert(text@.skip(n as int).len() == 0);
    }
    out
}

/// Whether `line` holds no line feed.
pub open spec fn unbroken(line: Seq<char>) -> bool {
    forall|j: int| 0 <= j < line.len() ==> line[j] != '\n'
}

/// No line holds a line feed.
pub proof fn lines_hold_no_line_feed(s: Seq<char>)
    ensures
        forall|i: int| 0 <= i < lines_of(s).len() ==> unbroken(#[trigger] lines_of(s)[i]),
    decreases s.len(),
{
    if s.len() > 0 {
        let n = line_len(s) as int;
        lemma_line_holds_no_line_feed(s);
        if n < s.len() {
            lines_hold_no_line_feed(s.skip(n + 1));
            let rest = lines_of(s.skip(n + 1));
            assert(unbroken(without_cr(s.take(n))));
            assert forall|i: int| 0 <= i < lines_of(s).len() implies unbroken(
                #[trigger] lines_of(s)[i],
            ) by {
                if i > 0 {
                    assert(lines_of(s)[i] == rest[i - 1]);
                }
            }
        } else {
            assert(unbroken(s));
        }
    }
}

/// No line feed stands before the end of the first line.
proof fn lemma_line_holds_no_line_feed(s: Seq<char>)
    ensures
        line_len(s) <= s.len(),
        forall|j: int| 0 <= j < line_len(s) ==> s[j] != '\n',
    decreases s.len(),
{
    if s.len() > 0 && s[0] != '\n' {
        lemma_line_holds_no_line_feed(s.drop_first());
        assert forall|j: int| 0 <= j < line_len(s) implies s[j] != '\n' by {
            if j > 0 {
                assert(s[j] == s.drop_first()[j - 1]);
            }
        }
    }
}

} // verus!
