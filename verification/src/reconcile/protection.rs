//! The protection rules of tags and branches, against the single level that
//! each rule should ask for.

use vstd::prelude::*;
use vstd::string::*;
use crate::reconcile::change::{
    optional_view, Change, ChangeKind, ChangeView, Request, RequestView,
};
use crate::text::same_str;
use crate::types::{
    protected_level, GroupProjects, MyProtectedAccessLevel, ProtectedAccess,
    ProtectedAccessLevel, ProtectedBranch, ProtectedTag,
};
use crate::util::{
    format_gitlab_project_protected_branch, format_gitlab_project_protected_tag,
    protected_branch_text, protected_tag_text,
};

verus! {

/// The levels that the entries of a rule stand for, in order.
pub open spec fn entry_levels(entries: Seq<ProtectedAccessLevel>) -> Seq<MyProtectedAccessLevel> {
    entries.map_values(|entry: ProtectedAccessLevel| protected_level(entry.access_level))
}

/// Whether a rule is as it should be: it has exactly one entry, and that
/// entry is the level `expected`.
pub open spec fn in_order(levels: Seq<MyProtectedAccessLevel>, expected: MyProtectedAccessLevel) -> bool {
    levels.len() == 1 && levels[0] == expected
}

/// The levels that the entries of a rule stand for.
pub fn levels_of(entries: &Vec<ProtectedAccessLevel>) -> (levels: Vec<MyProtectedAccessLevel>)
    ensures
        levels@ == entry_levels(entries@),
{
    let mut levels: Vec<MyProtectedAccessLevel> = Vec::new();
    let mut i: usize = 0;
    while i < entries.len()
        invariant
            i <= entries.len(),
            levels@.len() == i,
            forall|k: int| 0 <= k < i ==> #[trigger] levels@[k] == protected_level(
                entries@[k].access_level,
            ),
        decreases entries.len() - i,
    {
        levels.push(entries[i].as_gitlab_type());
        i += 1;
    }
    levels
}

/// Whether a rule is as it should be.
pub fn is_in_order(levels: &Vec<MyProtectedAccessLevel>, expected: MyProtectedAccessLevel) -> (ok: bool)
    ensures
        ok == in_order(levels@, expected),
{
    levels.len() == 1 && levels[0] == expected
}

/// The first of `tags` that is named `name`.
pub open spec fn tag_index(tags: Seq<ProtectedTag>, name: Seq<char>, from: int) -> int
    decreases tags.len() - from,
{
    if from < 0 || from >= tags.len() {
        tags.len() as int
    } else if tags[from].name@ == name {
        from
    } else {
        tag_index(tags, name, from + 1)
    }
}

/// The rule named `name` among `tags`: the first one, where there are
/// several.
pub fn find_protected_tag<'a>(
    tags: &'a Vec<ProtectedTag>,
    name: &str,
) -> (found: Option<&'a ProtectedTag>)
    ensures
        found is Some == (tag_index(tags@, name@, 0) < tags@.len()),
        found matches Some(tag) ==> *tag == tags@[tag_index(tags@, name@, 0)],
{
    let mut i: usize = 0;
    while i < tags.len()
        invariant
            i <= tags.len(),
            tag_index(tags@, name@, 0) == tag_index(tags@, name@, i as int),
        decreases tags.len() - i,
    {
        if same_str(tags[i].name.as_str(), name) {
            return Some(&tags[i]);
        }
        i += 1;
    }
    None
}

/// The two requests that replace the rule of the tag `tag`: the rule is
/// taken away, then set anew with the one level `allowed_to_create`.
pub open spec fn tag_replacement(
    project: u64,
    tag: Seq<char>,
    allowed_to_create: MyProtectedAccessLevel,
) -> Seq<RequestView> {
    seq![
        RequestView::UnprotectTag { project, name: tag },
        RequestView::ProtectTag { project, name: tag, create_access_level: allowed_to_create },
    ]
}

/// The two requests that replace the rule of the branch that `expected`
/// names: the rule is taken away, then set anew with the levels of
/// `expected`.
pub open spec fn branch_replacement(project: u64, expected: ProtectedAccess) -> Seq<RequestView> {
    seq![
        RequestView::UnprotectBranch { project, name: expected.name@ },
        RequestView::ProtectBranch {
            project,
            name: expected.name@,
            push_access_level: expected.push_access_level,
            merge_access_level: expected.merge_access_level,
        },
    ]
}

/// The correction of the rule of the tag `tag` in the project `project`,
/// whose path is `namespace`. Where there is no rule, one is added. Where
/// the rule is not in order, it is taken away and set anew: the platform
/// cannot change a rule in place.
pub open spec fn tag_correction(
    project: u64,
    namespace: Seq<char>,
    tag: Seq<char>,
    allowed_to_create: MyProtectedAccessLevel,
    current: Option<ProtectedTag>,
) -> Option<ChangeView> {
    match current {
        None => Some(
            ChangeView {
                kind: ChangeKind::Add,
                before: Seq::empty(),
                after: protected_tag_text(namespace, tag, seq![allowed_to_create]),
                requests: seq![
                    RequestView::ProtectTag {
                        project,
                        name: tag,
                        create_access_level: allowed_to_create,
                    },
                ],
            },
        ),
        Some(rule) => if in_order(entry_levels(rule.create_access_levels@), allowed_to_create) {
            None
        } else {
            Some(
                ChangeView {
                    kind: ChangeKind::Change,
                    before: protected_tag_text(
                        namespace,
                        rule.name@,
                        entry_levels(rule.create_access_levels@),
                    ),
                    after: protected_tag_text(namespace, tag, seq![allowed_to_create]),
                    requests: tag_replacement(project, tag, allowed_to_create),
                },
            )
        },
    }
}

/// The rule that may be absent, as a value.
pub open spec fn tag_rule(current: Option<&ProtectedTag>) -> Option<ProtectedTag> {
    match current {
        Some(rule) => Some(*rule),
        None => None,
    }
}

/// The rule that may be absent, as a value.
pub open spec fn branch_rule(current: Option<&ProtectedBranch>) -> Option<ProtectedBranch> {
    match current {
        Some(rule) => Some(*rule),
        None => None,
    }
}

/// The correction of the rule of `tag` in `project`, if it needs one.
pub fn protect_tag(
    project: &GroupProjects,
    tag: &str,
    allowed_to_create: MyProtectedAccessLevel,
    current_tag: Option<&ProtectedTag>,
) -> (change: Option<Change>)
    ensures
        optional_view(change) == tag_correction(
            project.id,
            project.path_with_namespace@,
            tag@,
            allowed_to_create,
            tag_rule(current_tag),
        ),
{
    let mut access: Vec<MyProtectedAccessLevel> = Vec::new();
    access.push(allowed_to_create);
    let protect = Request::ProtectTag {
        project: project.id,
        name: String::from_str(tag),
        create_access_level: allowed_to_create,
    };
    let mut requests: Vec<Request> = Vec::new();
    match current_tag {
        Some(rule) => {
            let current_levels = levels_of(&rule.create_access_levels);
            if is_in_order(&current_levels, allowed_to_create) {
                return None;
            }
            requests.push(Request::UnprotectTag { project: project.id, name: String::from_str(tag) });
            requests.push(protect);
            let change = Change {
                kind: ChangeKind::Change,
                before: format_gitlab_project_protected_tag(
                    project.path_with_namespace.as_str(),
                    rule.name.as_str(),
                    current_levels.as_slice(),
                ),
                after: format_gitlab_project_protected_tag(
                    project.path_with_namespace.as_str(),
                    tag,
                    access.as_slice(),
                ),
                requests,
            };
            assert(change@.requests =~= seq![
                RequestView::UnprotectTag { project: project.id, name: tag@ },
                RequestView::ProtectTag {
                    project: project.id,
                    name: tag@,
                    create_access_level: allowed_to_create,
                },
            ]);
            Some(change)
        },
        None => {
            requests.push(protect);
            let change = Change {
                kind: ChangeKind::Add,
                before: String::new(),
                after: format_gitlab_project_protected_tag(
                    project.path_with_namespace.as_str(),
                    tag,
                    access.as_slice(),
                ),
                requests,
            };
            assert(change@.requests =~= seq![
                RequestView::ProtectTag {
                    project: project.id,
                    name: tag@,
                    create_access_level: allowed_to_create,
                },
            ]);
            Some(change)
        },
    }
}

/// The correction of the rule of a branch, as `tag_correction` is that of a
/// tag: the rule is in order where pushing and merging each have exactly one
/// entry, the level that `expected` names for it.
pub open spec fn branch_correction(
    project: u64,
    namespace: Seq<char>,
    expected: ProtectedAccess,
    current: Option<ProtectedBranch>,
) -> Option<ChangeView> {
    let after = protected_branch_text(
        namespace,
        expected.name@,
        seq![expected.push_access_level],
        seq![expected.merge_access_level],
    );
    let protect = RequestView::ProtectBranch {
        project,
        name: expected.name@,
        push_access_level: expected.push_access_level,
        merge_access_level: expected.merge_access_level,
    };
    match current {
        None => Some(
            ChangeView {
                kind: ChangeKind::Add,
                before: Seq::empty(),
                after,
                requests: seq![protect],
            },
        ),
        Some(rule) => if in_order(entry_levels(rule.push_access_levels@), expected.push_access_level)
            && in_order(entry_levels(rule.merge_access_levels@), expected.merge_access_level) {
            None
        } else {
            Some(
                ChangeView {
                    kind: ChangeKind::Change,
                    before: protected_branch_text(
                        namespace,
                        rule.name@,
                        entry_levels(rule.push_access_levels@),
                        entry_levels(rule.merge_access_levels@),
                    ),
                    after,
                    requests: branch_replacement(project, expected),
                },
            )
        },
    }
}

/// The correction of the rule of the branch that `expected` names, in
/// `project`, if it needs one.
pub fn protect_branch(
    project: &GroupProjects,
    expected: &ProtectedAccess,
    current_branch: Option<&ProtectedBranch>,
) -> (change: Option<Change>)
    ensures
        optional_view(change) == branch_correction(
            project.id,
            project.path_with_namespace@,
            *expected,
            branch_rule(current_branch),
        ),
{
    let mut push: Vec<MyProtectedAccessLevel> = Vec::new();
    push.push(expected.push_access_level);
    let mut merge: Vec<MyProtectedAccessLevel> = Vec::new();
    merge.push(expected.merge_access_level);
    let after = format_gitlab_project_protected_branch(
        project.path_with_namespace.as_str(),
        expected.name.as_str(),
        push.as_slice(),
        merge.as_slice(),
    );
    let protect = Request::ProtectBranch {
        project: project.id,
        name: expected.name.clone(),
        push_access_level: expected.push_access_level,
        merge_access_level: expected.merge_access_level,
    };
    let mut requests: Vec<Request> = Vec::new();
    match current_branch {
        Some(rule) => {
            let push_levels = levels_of(&rule.push_access_levels);
            let merge_levels = levels_of(&rule.merge_access_levels);
            if is_in_order(&push_levels, expected.push_access_level) && is_in_order(
                &merge_levels,
                expected.merge_access_level,
            ) {
                return None;
            }
            requests.push(
                Request::UnprotectBranch { project: project.id, name: expected.name.clone() },
            );
            requests.push(protect);
            let change = Change {
                kind: ChangeKind::Change,
                before: format_gitlab_project_protected_branch(
                    project.path_with_namespace.as_str(),
                    rule.name.as_str(),
                    push_levels.as_slice(),
                    merge_levels.as_slice(),
                ),
                after,
                requests,
            };
            assert(change@.requests =~= branch_correction(
                project.id,
                project.path_with_namespace@,
                *expected,
                branch_rule(current_branch),
            )->0.requests);
            Some(change)
        },
        None => {
            requests.push(protect);
            let change = Change { kind: ChangeKind::Add, before: String::new(), after, requests };
            assert(change@.requests =~= branch_correction(
                project.id,
                project.path_with_namespace@,
                *expected,
                branch_rule(current_branch),
            )->0.requests);
            Some(change)
        },
    }
}

} // verus!
