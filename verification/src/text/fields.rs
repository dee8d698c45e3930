//! Splitting a text at a separator character, and into lines.

use vstd::prelude::*;
use crate::text::{slice_of, texts};

verus! {

/// The index of the first `separator` at or after `from`, or the length of
/// `text` where there is none.
pub open spec fn next_separator(text: Seq<char>, separator: char, from: int) -> int
    decreases text.len() - from,
{
    if from < 0 || from >= text.len() {
        text.len() as int
    } else if text[from] == separator {
        from
    } else {
        next_separator(text, separator, from + 1)
    }
}

/// The fields of `text` from `from` on: the pieces between the separators.
/// There is always at least one; it is empty where `from` is the end.
pub open spec fn fields_from(text: Seq<char>, separator: char, from: int) -> Seq<Seq<char>>
    decreases text.len() - from,
    when 0 <= from <= text.len()
    via fields_from_decreases
{
    let stop = next_separator(text, separator, from);
    if stop >= text.len() {
        seq![text.subrange(from, text.len() as int)]
    } else {
        seq![text.subrange(from, stop)] + fields_from(text, separator, stop + 1)
    }
}

#[via_fn]
proof fn fields_from_decreases(text: Seq<char>, separator: char, from: int) {
    lemma_next_separator_bounds(text, separator, from);
}

/// The separator found is at or after `from` and within the text.
pub proof fn lemma_next_separator_bounds(text: Seq<char>, separator: char, from: int)
    requires
        0 <= from <= text.len(),
    ensures
        from <= next_separator(text, separator, from) <= text.len(),
    decreases text.len() - from,
{
    if from < text.len() && text[from] != separator {
        lemma_next_separator_bounds(text, separator, from + 1);
    }
}

/// The fields of `text`, split at every `separator`.
pub open spec fn fields(text: Seq<char>, separator: char) -> Seq<Seq<char>> {
    fields_from(text, separator, 0)
}

/// `line` without a carriage return at its end.
pub open spec fn without_carriage_return(line: Seq<char>) -> Seq<char> {
    if line.len() > 0 && line.last() == '\r' {
        line.drop_last()
    } else {
        line
    }
}

/// The lines of `text`. Every line feed ends a line, and a carriage return
/// just before it belongs to the line ending. What follows the last line feed
/// is a line of its own as it stands, unless it is empty.
pub open spec fn lines_of(text: Seq<char>) -> Seq<Seq<char>> {
    let pieces = fields(text, '\n');
    let ended = pieces.drop_last().map_values(|line: Seq<char>| without_carriage_return(line));
    if pieces.last().len() == 0 {
        ended
    } else {
        ended.push(pieces.last())
    }
}

/// Finds the first `separator` at or after `from`.
fn find_separator(text: &Vec<char>, separator: char, from: usize) -> (stop: usize)
    requires
        from <= text.len(),
    ensures
        stop == next_separator(text@, separator, from as int),
        from <= stop <= text.len(),
{
    let mut stop: usize = from;
    while stop < text.len() && text[stop] != separator
        invariant
            from <= stop <= text.len(),
            next_separator(text@, separator, from as int) == next_separator(
                text@,
                separator,
                stop as int,
            ),
        decreases text.len() - stop,
    {
        stop += 1;
    }
    stop
}

/// Splits `text` at every `separator`.
pub fn split(text: &Vec<char>, separator: char) -> (pieces: Vec<Vec<char>>)
    ensures
        texts(pieces@) == fields(text@, separator),
        pieces@.len() >= 1,
{
    let mut pieces: Vec<Vec<char>> = Vec::new();
    let mut from: usize = 0;
    loop
        invariant_except_break
            from <= text.len(),
            fields(text@, separator) == texts(pieces@) + fields_from(
                text@,
                separator,
                from as int,
            ),
        ensures
            texts(pieces@) == fields(text@, separator),
            pieces@.len() >= 1,
        decreases text.len() - from,
    {
        let stop = find_separator(text, separator, from);
        let piece = slice_of(text, from, stop);
        pieces.push(piece);
        if stop >= text.len() {
            break;
        }
        from = stop + 1;
    }
    pieces
}

/// Copies `line` without a carriage return at its end.
fn strip_carriage_return(line: &Vec<char>) -> (stripped: Vec<char>)
    ensures
        stripped@ == without_carriage_return(line@),
{
    let len = line.len();
    if len > 0 && line[len - 1] == '\r' {
        let stripped = slice_of(line, 0, len - 1);
        stripped
    } else {
        let stripped = slice_of(line, 0, len);
        stripped
    }
}

/// Splits `text` into its lines.
pub fn lines(text: &Vec<char>) -> (found: Vec<Vec<char>>)
    ensures
        texts(found@) == lines_of(text@),
{
    let mut pieces = split(text, '\n');
    let last = pieces.pop().unwrap();
    let mut found: Vec<Vec<char>> = Vec::new();
    let mut i: usize = 0;
    while i < pieces.len()
        invariant
            i <= pieces.len(),
            found@.len() == i,
            forall|k: int| 0 <= k < i ==> (#[trigger] found@[k])@ == without_carriage_return(
                pieces@[k]@,
            ),
        decreases pieces.len() - i,
    {
        let line = strip_carriage_return(&pieces[i]);
        found.push(line);
        i += 1;
    }
    if last.len() > 0 {
        found.push(last);
    }
    found
}

} // verus!
