//! White space and trimming.

use vstd::prelude::*;
use crate::text::slice_of;

verus! {

/// Whether `c` is white space: a character with the Unicode property
/// `White_Space`.
pub open spec fn is_whitespace(c: char) -> bool {
    let code = c as u32;
    ||| 0x09 <= code <= 0x0d
    ||| code == 0x20
    ||| code == 0x85
    ||| code == 0xa0
    ||| code == 0x1680
    ||| 0x2000 <= code <= 0x200a
    ||| code == 0x2028
    ||| code == 0x2029
    ||| code == 0x202f
    ||| code == 0x205f
    ||| code == 0x3000
}

/// Tests a character for white space.
pub fn char_is_whitespace(c: char) -> (white: bool)
    ensures
        white == is_whitespace(c),
{
    let code: u32 = c as u32;
    (0x09 <= code && code <= 0x0d) || code == 0x20 || code == 0x85 || code == 0xa0 || code
        == 0x1680 || (0x2000 <= code && code <= 0x200a) || code == 0x2028 || code == 0x2029
        || code == 0x202f || code == 0x205f || code == 0x3000
}

/// The index of the first character at or after `from` that is not white
/// space, or the length of `text` where there is none.
pub open spec fn content_start(text: Seq<char>, from: int) -> int
    decreases text.len() - from,
{
    if from < 0 || from >= text.len() {
        text.len() as int
    } else if !is_whitespace(text[from]) {
        from
    } else {
        content_start(text, from + 1)
    }
}

/// The end of the content of `text` between `low` and `to`: the index after
/// the last character before `to` that is not white space, and `low` where
/// there is none from `low` on.
pub open spec fn content_end(text: Seq<char>, low: int, to: int) -> int
    decreases to - low,
{
    if to <= low || to > text.len() {
        low
    } else if !is_whitespace(text[to - 1]) {
        to
    } else {
        content_end(text, low, to - 1)
    }
}

/// `text` without the white space at its start and at its end.
pub open spec fn trimmed(text: Seq<char>) -> Seq<char> {
    let start = content_start(text, 0);
    let end = content_end(text, start, text.len() as int);
    text.subrange(start, end)
}

/// Where the content of `text` lies: `content_start` is within the text and
/// `content_end` is between its lower bound and `to`.
pub proof fn lemma_content_bounds(text: Seq<char>, low: int, to: int)
    requires
        0 <= low <= to <= text.len(),
    ensures
        low <= content_start(text, low) <= text.len(),
        low <= content_end(text, low, to) <= to,
    decreases to - low, text.len() - low,
{
    if low < text.len() && is_whitespace(text[low]) {
        lemma_content_start_bounds(text, low + 1);
    }
    if to > low && is_whitespace(text[to - 1]) {
        lemma_content_bounds(text, low, to - 1);
    }
}

proof fn lemma_content_start_bounds(text: Seq<char>, from: int)
    requires
        0 <= from <= text.len(),
    ensures
        from <= content_start(text, from) <= text.len(),
    decreases text.len() - from,
{
    if from < text.len() && is_whitespace(text[from]) {
        lemma_content_start_bounds(text, from + 1);
    }
}

/// A trimmed text neither starts nor ends with white space.
pub proof fn lemma_trimmed_has_no_margin(text: Seq<char>)
    ensures
        trimmed(text).len() > 0 ==> !is_whitespace(trimmed(text).first()) && !is_whitespace(
            trimmed(text).last(),
        ),
{
    let start = content_start(text, 0);
    lemma_content_start_bounds(text, 0);
    lemma_content_start_is_content(text, 0);
    lemma_content_end_is_content(text, start, text.len() as int);
    lemma_content_bounds(text, start, text.len() as int);
}

proof fn lemma_content_start_is_content(text: Seq<char>, from: int)
    requires
        0 <= from <= text.len(),
    ensures
        content_start(text, from) < text.len() ==> !is_whitespace(
            text[content_start(text, from)],
        ),
    decreases text.len() - from,
{
    if from < text.len() && is_whitespace(text[from]) {
        lemma_content_start_is_content(text, from + 1);
    }
}

proof fn lemma_content_end_is_content(text: Seq<char>, low: int, to: int)
    requires
        0 <= low <= to <= text.len(),
    ensures
        content_end(text, low, to) > low ==> !is_whitespace(
            text[content_end(text, low, to) - 1],
        ),
    decreases to - low,
{
    if to > low && is_whitespace(text[to - 1]) {
        lemma_content_end_is_content(text, low, to - 1);
    }
}

/// Removes the white space at the start and at the end of `text`.
pub fn trim(text: &Vec<char>) -> (inner: Vec<char>)
    ensures
        inner@ == trimmed(text@),
{
    let mut start: usize = 0;
    while start < text.len() && char_is_whitespace(text[start])
        invariant
            start <= text.len(),
            content_start(text@, 0) == content_start(text@, start as int),
        decreases text.len() - start,
    {
        start += 1;
    }
    let mut end: usize = text.len();
    while end > start && char_is_whitespace(text[end - 1])
        invariant
            start <= end <= text.len(),
            content_end(text@, start as int, text.len() as int) == content_end(
                text@,
                start as int,
                end as int,
            ),
        decreases end - start,
    {
        end -= 1;
    }
    slice_of(text, start, end)
}

} // verus!
