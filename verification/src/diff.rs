//! The difference between two blocks of text, line by line, and the lines
//! that show it.

use vstd::prelude::*;
use vstd::string::*;
use crate::text::{chars_of, string_of, texts};
use crate::text::fields::{lines, lines_of};

verus! {

/// A run of lines that two texts share, or that only one of them has. The
/// lines of a run are joined by line feeds.
#[derive(Debug, PartialEq, Eq)]
pub enum Difference {
    /// Lines that both texts have.
    Same(String),
    /// Lines that only the second text has.
    Add(String),
    /// Lines that only the first text has.
    Rem(String),
}

/// What a line of a rendered difference says of its text.
#[derive(Debug, Clone, Copy, PartialEq, Eq, Structural)]
pub enum LineKind {
    Same,
    Add,
    Rem,
}

/// A run of a difference, as kind and text.
pub struct Run {
    pub kind: LineKind,
    pub text: Seq<char>,
}

impl View for Difference {
    type V = Run;

    open spec fn view(&self) -> Run {
        match self {
            Difference::Same(text) => Run { kind: LineKind::Same, text: text@ },
            Difference::Add(text) => Run { kind: LineKind::Add, text: text@ },
            Difference::Rem(text) => Run { kind: LineKind::Rem, text: text@ },
        }
    }
}

/// The runs held by a vector of differences.
pub open spec fn runs(diffs: Seq<Difference>) -> Seq<Run> {
    diffs.map_values(|diff: Difference| diff@)
}

/// One line of a rendered difference: its kind, and its text, which begins
/// with the mark of the kind.
#[derive(Debug, PartialEq, Eq)]
pub struct DiffLine {
    pub kind: LineKind,
    pub text: String,
}

impl View for DiffLine {
    type V = (LineKind, Seq<char>);

    open spec fn view(&self) -> (LineKind, Seq<char>) {
        (self.kind, self.text@)
    }
}

/// The rendered lines held by a vector.
pub open spec fn shown(lines: Seq<DiffLine>) -> Seq<(LineKind, Seq<char>)> {
    lines.map_values(|line: DiffLine| line@)
}

impl LineKind {
    /// The character that a rendered line of this kind begins with: a space
    /// for what stays, a plus sign for what comes, a minus sign for what goes.
    pub open spec fn mark(self) -> char {
        match self {
            LineKind::Same => ' ',
            LineKind::Add => '+',
            LineKind::Rem => '-',
        }
    }

    /// The character that a rendered line of this kind begins with.
    pub fn mark_char(self) -> (mark: char)
        ensures
            mark == self.mark(),
    {
        match self {
            LineKind::Same => ' ',
            LineKind::Add => '+',
            LineKind::Rem => '-',
        }
    }
}

/// The rendered lines of one run: each of its lines behind the mark of its
/// kind.
pub open spec fn rendered_run(kind: LineKind, text: Seq<char>) -> Seq<(LineKind, Seq<char>)> {
    lines_of(text).map_values(|line: Seq<char>| (kind, seq![kind.mark()] + line))
}

/// The rendered lines of a sequence of runs, run after run.
pub open spec fn rendered(all: Seq<Run>) -> Seq<(LineKind, Seq<char>)>
    decreases all.len(),
{
    if all.len() == 0 {
        Seq::empty()
    } else {
        rendered(all.drop_last()) + rendered_run(all.last().kind, all.last().text)
    }
}

/// Whether the table that compares the pieces of `orig` with those of `edit`
/// fits into memory. The table has one machine word for each pair of
/// pieces, and a text has at most two pieces more than characters.
pub open spec fn comparable(orig: Seq<char>, edit: Seq<char>) -> bool {
    (orig.len() + 2) * (edit.len() + 2) * 8 <= isize::MAX
}

/// The runs into which the `difference` crate's `Changeset::new` divides two
/// texts, split at `split`. They are a function of the three texts alone.
pub uninterp spec fn changeset_diffs(orig: Seq<char>, edit: Seq<char>, split: Seq<char>) -> Seq<Run>;

/// Compares two texts piece by piece, through `Changeset::new` of the
/// `difference` crate, and hands back the runs it found, in its order.
/// Nothing is claimed of the runs but that they are those of
/// `changeset_diffs`.
#[verifier::external_body]
fn changeset(orig: &str, edit: &str, split: &str) -> (diffs: Vec<Difference>)
    requires
        comparable(orig@, edit@),
    ensures
        runs(diffs@) == changeset_diffs(orig@, edit@, split@),
{
    difference::Changeset::new(orig, edit, split).diffs.into_iter().map(
        |diff| match diff {
            difference::Difference::Same(text) => Difference::Same(text),
            difference::Difference::Add(text) => Difference::Add(text),
            difference::Difference::Rem(text) => Difference::Rem(text),
        },
    ).collect()
}

/// Renders one run and appends its lines to `out`.
fn render_run(out: &mut Vec<DiffLine>, kind: LineKind, text: &str)
    ensures
        shown(final(out)@) == shown(old(out)@) + rendered_run(kind, text@),
{
    let found = lines(&chars_of(text));
    let mut i: usize = 0;
    while i < found.len()
        invariant
            i <= found.len(),
            texts(found@) == lines_of(text@),
            shown(out@) == shown(old(out)@) + rendered_run(kind, text@).take(
                i as int,
            ),
        decreases found.len() - i,
    {
        let mut line: Vec<char> = Vec::new();
        line.push(kind.mark_char());
        crate::text::search::append(&mut line, &found[i]);
        let ghost before = shown(out@);
        out.push(DiffLine { kind, text: string_of(&line) });
        proof {
            assert(shown(out@) =~= before.push((kind, line@)));
        }
        i += 1;
    }
}

/// The lines that show a sequence of runs: for each run in turn, each of
/// its lines behind the mark of the run's kind.
pub fn render(diffs: &Vec<Difference>) -> (lines: Vec<DiffLine>)
    ensures
        shown(lines@) == rendered(runs(diffs@)),
{
    let mut out: Vec<DiffLine> = Vec::new();
    let mut i: usize = 0;
    while i < diffs.len()
        invariant
            i <= diffs.len(),
            shown(out@) == rendered(runs(diffs@).take(i as int)),
        decreases diffs.len() - i,
    {
        match &diffs[i] {
            Difference::Same(text) => render_run(&mut out, LineKind::Same, text.as_str()),
            Difference::Add(text) => render_run(&mut out, LineKind::Add, text.as_str()),
            Difference::Rem(text) => render_run(&mut out, LineKind::Rem, text.as_str()),
        }
        i += 1;
        proof {
            let upto = runs(diffs@).take(i as int);
            assert(upto.drop_last() =~= runs(diffs@).take(i - 1));
        }
    }
    assert(runs(diffs@).take(diffs@.len() as int) =~= runs(diffs@));
    out
}

/// Whether two texts can be compared: whether the table of their pieces
/// fits into memory.
pub fn diff_fits(orig: &str, edit: &str) -> (fits: bool)
    ensures
        fits == comparable(orig@, edit@),
{
    let left = orig.unicode_len();
    let right = edit.unicode_len();
    let limit: usize = (isize::MAX as usize) / 8;
    if left >= limit || right >= limit {
        proof {
            let n = left as int;
            let m = right as int;
            let top = isize::MAX as int;
            assert((n + 2) * (m + 2) * 8 > top) by (nonlinear_arith)
                requires
                    n >= top / 8 || m >= top / 8,
                    n >= 0,
                    m >= 0,
                    top >= 0,
            ;
        }
        return false;
    }
    let bound: usize = limit / (right + 2);
    proof {
        let n = left as int + 2;
        let m = right as int + 2;
        let top = isize::MAX as int;
        assert((n <= (top / 8) / m) <==> (n * m * 8 <= top)) by (nonlinear_arith)
            requires
                m >= 1,
                n >= 0,
                top >= 0,
        ;
    }
    left + 2 <= bound
}

/// The lines that show how `text2` differs from `text1`: what both have
/// behind a space, what only `text2` has behind a plus sign, what only
/// `text1` has behind a minus sign.
pub fn diff_lines(text1: &str, text2: &str) -> (lines: Vec<DiffLine>)
    requires
        comparable(text1@, text2@),
    ensures
        shown(lines@) == rendered(changeset_diffs(text1@, text2@, "\n"@)),
{
    let diffs = changeset(text1, text2, "\n");
    render(&diffs)
}

} // verus!
