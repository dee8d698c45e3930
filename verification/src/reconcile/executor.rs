//! Planning and applying: what is shown of a correction, which requests are
//! sent for it, and how the corrections of a unit are counted.

use vstd::prelude::*;
use vstd::string::*;
use crate::args::Action;
use crate::diff::{
    changeset_diffs, comparable, diff_fits, diff_lines, rendered, shown, DiffLine, LineKind,
};
use crate::reconcile::change::{
    change_views, optional_view, request_views, Change, ChangeKind, ChangeView, Request, RequestView,
};
use crate::types::PlanSummary;

verus! {

/// What becomes of one correction in a run.
#[derive(Debug)]
pub struct Execution {
    /// The lines that show the entity before and after the correction.
    pub diff: Vec<DiffLine>,
    /// The requests to send, in order; none in a run that only plans.
    pub requests: Vec<Request>,
}

/// An execution, with its texts as sequences of characters.
pub struct ExecutionView {
    pub diff: Seq<(LineKind, Seq<char>)>,
    pub requests: Seq<RequestView>,
}

impl View for Execution {
    type V = ExecutionView;

    open spec fn view(&self) -> ExecutionView {
        ExecutionView { diff: shown(self.diff@), requests: request_views(self.requests@) }
    }
}

/// What becomes of `change` in a run with `action`. The difference between
/// the two blocks is shown either way. The requests are those of the change
/// where the run applies, and none where it plans.
pub open spec fn execution_of(action: Action, change: ChangeView) -> ExecutionView {
    ExecutionView {
        diff: rendered(changeset_diffs(change.before, change.after, "\n"@)),
        requests: match action {
            Action::Plan => Seq::empty(),
            Action::Apply => change.requests,
        },
    }
}

/// Shows `change`, and hands out its requests where the run applies.
pub fn execute(action: Action, change: Change) -> (execution: Execution)
    requires
        comparable(change.before@, change.after@),
    ensures
        execution@ == execution_of(action, change@),
{
    let diff = diff_lines(change.before.as_str(), change.after.as_str());
    let requests = match action {
        Action::Plan => Vec::new(),
        Action::Apply => change.requests,
    };
    let execution = Execution { diff, requests };
    assert(execution@.requests =~= execution_of(action, change@).requests);
    execution
}

/// Shows `change`, and hands out its requests where the run applies, as
/// `execute` does; where the two blocks of the change are too long to be
/// compared, hands the change back as it is.
pub fn try_execute(action: Action, change: Change) -> (outcome: Result<Execution, Change>)
    ensures
        comparable(change.before@, change.after@) ==> outcome is Ok && outcome->Ok_0@
            == execution_of(action, change@),
        !comparable(change.before@, change.after@) ==> outcome == Err::<Execution, Change>(change),
{
    if diff_fits(change.before.as_str(), change.after.as_str()) {
        Ok(execute(action, change))
    } else {
        Err(change)
    }
}

/// How many of `changes` are of the kind `kind`.
pub open spec fn count_of(changes: Seq<ChangeView>, kind: ChangeKind) -> nat
    decreases changes.len(),
{
    if changes.len() == 0 {
        0
    } else if changes.last().kind == kind {
        count_of(changes.drop_last(), kind) + 1
    } else {
        count_of(changes.drop_last(), kind)
    }
}

/// There are no more corrections of a kind than corrections.
pub proof fn lemma_count_within_length(changes: Seq<ChangeView>, kind: ChangeKind)
    ensures
        count_of(changes, kind) <= changes.len(),
    decreases changes.len(),
{
    if changes.len() > 0 {
        lemma_count_within_length(changes.drop_last(), kind);
    }
}

/// The tally of the unit `name` with the corrections `changes`: one count
/// for each kind of correction.
pub fn tally(name: &str, changes: &Vec<Change>) -> (summary: PlanSummary)
    ensures
        summary.name@ == name@,
        summary.add == count_of(change_views(changes@), ChangeKind::Add),
        summary.change == count_of(change_views(changes@), ChangeKind::Change),
        summary.destroy == count_of(change_views(changes@), ChangeKind::Destroy),
{
    let mut summary = PlanSummary::new(name);
    let mut i: usize = 0;
    while i < changes.len()
        invariant
            i <= changes.len(),
            summary.name@ == name@,
            summary.add == count_of(change_views(changes@).take(i as int), ChangeKind::Add),
            summary.change == count_of(change_views(changes@).take(i as int), ChangeKind::Change),
            summary.destroy == count_of(
                change_views(changes@).take(i as int),
                ChangeKind::Destroy,
            ),
        decreases changes.len() - i,
    {
        proof {
            let upto = change_views(changes@).take(i as int);
            lemma_count_within_length(upto, ChangeKind::Add);
            lemma_count_within_length(upto, ChangeKind::Change);
            lemma_count_within_length(upto, ChangeKind::Destroy);
            let next = change_views(changes@).take(i + 1);
            assert(next.drop_last() =~= upto);
        }
        match changes[i].kind {
            ChangeKind::Add => {
                summary.add += 1;
            },
            ChangeKind::Change => {
                summary.change += 1;
            },
            ChangeKind::Destroy => {
                summary.destroy += 1;
            },
        }
        i += 1;
    }
    assert(change_views(changes@).take(changes@.len() as int) =~= change_views(changes@));
    summary
}

/// The corrections of one unit, and their tally.
#[derive(Debug)]
pub struct UnitPlan {
    pub summary: PlanSummary,
    pub changes: Vec<Change>,
}

impl UnitPlan {
    /// Whether the plan is that of the unit `name` with the corrections
    /// `changes`.
    pub open spec fn is_plan_of(&self, name: Seq<char>, changes: Seq<ChangeView>) -> bool {
        &&& self.summary.name@ == name
        &&& self.summary.add == count_of(changes, ChangeKind::Add)
        &&& self.summary.change == count_of(changes, ChangeKind::Change)
        &&& self.summary.destroy == count_of(changes, ChangeKind::Destroy)
        &&& change_views(self.changes@) == changes
    }

    /// The plan of the unit `name` with the corrections `changes`.
    pub fn new(name: &str, changes: Vec<Change>) -> (plan: UnitPlan)
        ensures
            plan.is_plan_of(name@, change_views(changes@)),
    {
        let summary = tally(name, &changes);
        UnitPlan { summary, changes }
    }
}

/// The corrections of a unit that needs at most one.
pub open spec fn at_most_one(change: Option<ChangeView>) -> Seq<ChangeView> {
    match change {
        Some(found) => seq![found],
        None => Seq::empty(),
    }
}

/// The corrections of a unit that needs at most one.
pub fn single(change: Option<Change>) -> (changes: Vec<Change>)
    ensures
        change_views(changes@) == at_most_one(optional_view(change)),
{
    let mut changes: Vec<Change> = Vec::new();
    match change {
        Some(found) => {
            changes.push(found);
        },
        None => {
        },
    }
    changes
}

} // verus!
