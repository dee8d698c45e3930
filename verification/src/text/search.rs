//! Removing every occurrence of a pattern, joining texts with a separator,
//! and writing line feeds as an escape.

use vstd::prelude::*;
use crate::text::{same_text, slice_of, texts};

verus! {

/// Whether `pattern` stands in `text` at index `at`.
pub open spec fn occurs_at(text: Seq<char>, pattern: Seq<char>, at: int) -> bool {
    0 <= at && at + pattern.len() <= text.len() && text.subrange(at, at + pattern.len())
        == pattern
}

/// What is left of `text` from `from` on once every occurrence of `pattern`
/// is taken out. Occurrences are found from left to right and do not
/// overlap. An empty pattern occurs nowhere.
pub open spec fn without_from(text: Seq<char>, pattern: Seq<char>, from: int) -> Seq<char>
    decreases text.len() - from,
{
    if from < 0 || from >= text.len() {
        Seq::empty()
    } else if pattern.len() > 0 && occurs_at(text, pattern, from) {
        without_from(text, pattern, from + pattern.len())
    } else {
        seq![text[from]] + without_from(text, pattern, from + 1)
    }
}

/// `text` with every occurrence of `pattern` taken out.
pub open spec fn without(text: Seq<char>, pattern: Seq<char>) -> Seq<char> {
    without_from(text, pattern, 0)
}

/// Whether `pattern` stands in `text` at index `at`.
fn matches_at(text: &Vec<char>, pattern: &Vec<char>, at: usize) -> (found: bool)
    requires
        at <= text.len(),
    ensures
        found == occurs_at(text@, pattern@, at as int),
{
    if pattern.len() > text.len() - at {
        return false;
    }
    let part = slice_of(text, at, at + pattern.len());
    same_text(&part, pattern)
}

/// Takes every occurrence of `pattern` out of `text`.
pub fn remove_all(text: &Vec<char>, pattern: &Vec<char>) -> (rest: Vec<char>)
    ensures
        rest@ == without(text@, pattern@),
{
    let mut rest: Vec<char> = Vec::new();
    let mut at: usize = 0;
    while at < text.len()
        invariant
            at <= text.len(),
            without(text@, pattern@) == rest@ + without_from(text@, pattern@, at as int),
        decreases text.len() - at,
    {
        if pattern.len() > 0 && matches_at(text, pattern, at) {
            at += pattern.len();
        } else {
            rest.push(text[at]);
            at += 1;
        }
    }
    rest
}

/// The `parts` one after the other, with `separator` between each two.
pub open spec fn joined(parts: Seq<Seq<char>>, separator: Seq<char>) -> Seq<char>
    decreases parts.len(),
{
    if parts.len() == 0 {
        Seq::empty()
    } else if parts.len() == 1 {
        parts[0]
    } else {
        joined(parts.drop_last(), separator) + separator + parts.last()
    }
}

/// Appends the characters of `tail` to `text`.
pub fn append(text: &mut Vec<char>, tail: &Vec<char>)
    ensures
        final(text)@ == old(text)@ + tail@,
{
    let mut i: usize = 0;
    while i < tail.len()
        invariant
            i <= tail.len(),
            text@ == old(text)@ + tail@.take(i as int),
        decreases tail.len() - i,
    {
        text.push(tail[i]);
        i += 1;
    }
}

/// Joins `parts` with `separator` between each two.
pub fn join(parts: &Vec<Vec<char>>, separator: &Vec<char>) -> (whole: Vec<char>)
    ensures
        whole@ == joined(texts(parts@), separator@),
{
    let mut whole: Vec<char> = Vec::new();
    let mut i: usize = 0;
    while i < parts.len()
        invariant
            i <= parts.len(),
            whole@ == joined(texts(parts@).take(i as int), separator@),
        decreases parts.len() - i,
    {
        if i > 0 {
            append(&mut whole, separator);
        }
        append(&mut whole, &parts[i]);
        i += 1;
        proof {
            let upto = texts(parts@).take(i as int);
            assert(upto.drop_last() =~= texts(parts@).take(i - 1));
        }
    }
    assert(texts(parts@).take(parts@.len() as int) =~= texts(parts@));
    whole
}

/// `text` with every line feed written as a backslash and the letter `n`.
pub open spec fn escaped_line_feeds(text: Seq<char>) -> Seq<char>
    decreases text.len(),
{
    if text.len() == 0 {
        Seq::empty()
    } else if text.last() == '\n' {
        escaped_line_feeds(text.drop_last()) + seq!['\\', 'n']
    } else {
        escaped_line_feeds(text.drop_last()).push(text.last())
    }
}

/// Writes every line feed of `text` as a backslash and the letter `n`.
pub fn escape_line_feeds(text: &Vec<char>) -> (escaped: Vec<char>)
    ensures
        escaped@ == escaped_line_feeds(text@),
{
    let mut escaped: Vec<char> = Vec::new();
    let mut i: usize = 0;
    while i < text.len()
        invariant
            i <= text.len(),
            escaped@ == escaped_line_feeds(text@.take(i as int)),
        decreases text.len() - i,
    {
        if text[i] == '\n' {
            escaped.push('\\');
            escaped.push('n');
        } else {
            escaped.push(text[i]);
        }
        i += 1;
        assert(text@.take(i as int).drop_last() =~= text@.take(i - 1));
    }
    assert(text@.take(text@.len() as int) =~= text@);
    escaped
}

} // verus!
