//! What holds of every reconciliation.

use vstd::prelude::*;
use crate::args::Action;
use crate::reconcile::change::{ChangeKind, ChangeView, RequestView};
use crate::reconcile::description::{
    full_description, listed_names, package_description, MAX_DESCRIPTION_LENGTH,
    MAX_PACKAGE_NAMES,
};
use crate::reconcile::executor::execution_of;
use crate::reconcile::members::{
    additions, adjustment, corrections, excluded, has_member, level_request, member_changes,
    out_of_line, wanted_addition, wanted_correction, AccessRule, MemberPolicy,
};
use crate::reconcile::protection::{
    branch_correction, branch_replacement, entry_levels, in_order, tag_correction,
    tag_replacement,
};
use crate::reconcile::change::ProjectUpdateView;
use crate::reconcile::executor::count_of;
use crate::reconcile::settings::{
    chosen, description_of, generic_profile, group_correction, packaging_profile,
    settings_correction, settled,
};
use crate::state::{first_with_gitlab_id, User};
use crate::types::{
    Group, GroupProjects, Membership, MyProtectedAccessLevel, ProtectedAccess, ProtectedBranch,
    ProtectedTag,
};
use crate::util::access_level_of;

verus! {

/// A run that plans shows of a correction what a run that applies shows, and
/// sends nothing; a run that applies sends the requests of the correction
/// that it showed, and no others.
pub proof fn lemma_plan_shows_what_apply_does(change: ChangeView)
    ensures
        execution_of(Action::Plan, change).diff == execution_of(Action::Apply, change).diff,
        execution_of(Action::Plan, change).requests.len() == 0,
        execution_of(Action::Apply, change).requests == change.requests,
{
}

/// Under the rule `AtMost`, a member that an identity of the role claims
/// and that is not excluded needs no correction while its level is at or
/// below the ceiling, and exactly one above it: a change to the ceiling.
pub proof fn lemma_ceiling(
    namespace: Seq<char>,
    policy: MemberPolicy,
    member: Membership,
    desired: Seq<User>,
    bot_users: Option<Seq<char>>,
)
    requires
        policy.rule == AccessRule::AtMost,
        !excluded(member.username, bot_users),
        first_with_gitlab_id(desired, member.id) is Some,
    ensures
        access_level_of(member.access_level).rank() <= policy.access_level.rank() ==> corrections(
            namespace,
            policy,
            seq![member],
            desired,
            bot_users,
        ).len() == 0,
        access_level_of(member.access_level).rank() > policy.access_level.rank() ==> corrections(
            namespace,
            policy,
            seq![member],
            desired,
            bot_users,
        ) == seq![
            adjustment(
                namespace,
                policy,
                first_with_gitlab_id(desired, member.id)->0.username@,
                member.id,
                access_level_of(member.access_level),
            ),
        ] && adjustment(
            namespace,
            policy,
            first_with_gitlab_id(desired, member.id)->0.username@,
            member.id,
            access_level_of(member.access_level),
        ).requests == seq![level_request(namespace, policy, member.id)],
{
    Seq::lemma_filter_map_singleton(
        member,
        wanted_correction(namespace, policy, desired, bot_users),
    );
}

/// A rule of a tag is corrected if and only if it does not have exactly one
/// entry, or its one entry is not the level it should be.
pub proof fn lemma_tag_rule_corrected_unless_single(
    project: u64,
    namespace: Seq<char>,
    tag: Seq<char>,
    expected: MyProtectedAccessLevel,
    rule: ProtectedTag,
)
    ensures
        tag_correction(project, namespace, tag, expected, Some(rule)) is Some <==> (
        rule.create_access_levels@.len() != 1 || entry_levels(rule.create_access_levels@)[0]
            != expected),
{
}

/// A rule of a tag with two entries or more is taken away and set anew, in
/// these two requests, whether or not the level it should have is among its
/// entries.
pub proof fn lemma_tag_rule_with_many_entries_is_replaced(
    project: u64,
    namespace: Seq<char>,
    tag: Seq<char>,
    expected: MyProtectedAccessLevel,
    rule: ProtectedTag,
)
    requires
        rule.create_access_levels@.len() >= 2,
    ensures
        tag_correction(project, namespace, tag, expected, Some(rule)) is Some,
        tag_correction(project, namespace, tag, expected, Some(rule))->0.requests
            == tag_replacement(project, tag, expected),
{
}

/// A rule of a branch is corrected if and only if pushing or merging does
/// not have exactly one entry, the level it should be; a rule that is
/// corrected is taken away and set anew, in these two requests.
pub proof fn lemma_branch_rule_corrected_unless_single(
    project: u64,
    namespace: Seq<char>,
    expected: ProtectedAccess,
    rule: ProtectedBranch,
)
    ensures
        branch_correction(project, namespace, expected, Some(rule)) is Some <==> !(in_order(
            entry_levels(rule.push_access_levels@),
            expected.push_access_level,
        ) && in_order(entry_levels(rule.merge_access_levels@), expected.merge_access_level)),
        branch_correction(project, namespace, expected, Some(rule)) is Some ==> branch_correction(
            project,
            namespace,
            expected,
            Some(rule),
        )->0.requests == branch_replacement(project, expected),
{
}

/// A description lists up to sixteen names as they are. Of seventeen names
/// or more it lists the first sixteen, and an ellipsis behind them.
pub proof fn lemma_names_are_capped(names: Seq<Seq<char>>)
    ensures
        names.len() <= MAX_PACKAGE_NAMES ==> listed_names(names) == names,
        names.len() > MAX_PACKAGE_NAMES ==> listed_names(names).len() == MAX_PACKAGE_NAMES + 1
            && listed_names(names).take(MAX_PACKAGE_NAMES as int) == names.take(
            MAX_PACKAGE_NAMES as int,
        ) && listed_names(names)[MAX_PACKAGE_NAMES as int] == "..."@,
{
}

/// A description has two thousand characters at most, and exactly that many
/// where the manifest gives that many or more.
pub proof fn lemma_description_is_cut(srcinfo: Seq<char>)
    ensures
        package_description(srcinfo).len() <= MAX_DESCRIPTION_LENGTH,
        full_description(srcinfo).len() >= MAX_DESCRIPTION_LENGTH ==> package_description(
            srcinfo,
        ).len() == MAX_DESCRIPTION_LENGTH,
        full_description(srcinfo).len() <= MAX_DESCRIPTION_LENGTH ==> package_description(srcinfo)
            == full_description(srcinfo),
        package_description(srcinfo).is_prefix_of(full_description(srcinfo)),
{
}

/// Whether `request` is about the membership of the user `id`.
pub open spec fn touches(request: RequestView, id: u64) -> bool {
    match request {
        RequestView::AddMember { user, .. } => user == id,
        RequestView::EditMember { user, .. } => user == id,
        RequestView::RemoveMember { user, .. } => user == id,
        _ => false,
    }
}

/// Whether no two of `observed` have the same platform number.
pub open spec fn distinct_members(observed: Seq<Membership>) -> bool {
    forall|i: int, j: int|
        0 <= i < j < observed.len() ==> (#[trigger] observed[i]).id != (#[trigger] observed[j]).id
}

/// No request of a unit's corrections is about a member whose name is
/// excluded.
pub proof fn lemma_excluded_member_untouched(
    namespace: Seq<char>,
    policy: MemberPolicy,
    observed: Seq<Membership>,
    desired: Seq<User>,
    bot_users: Option<Seq<char>>,
    member: int,
)
    requires
        distinct_members(observed),
        0 <= member < observed.len(),
        excluded(observed[member].username, bot_users),
    ensures
        forall|k: int, r: int|
            #![trigger member_changes(namespace, policy, observed, desired, bot_users)[k].requests[r]]
            0 <= k < member_changes(namespace, policy, observed, desired, bot_users).len() && 0
                <= r < member_changes(namespace, policy, observed, desired, bot_users)[k].requests.len()
                ==> !touches(
                member_changes(namespace, policy, observed, desired, bot_users)[k].requests[r],
                observed[member].id,
            ),
{
    let all = member_changes(namespace, policy, observed, desired, bot_users);
    let added = additions(namespace, policy, observed, desired);
    let corrected = corrections(namespace, policy, observed, desired, bot_users);
    let id = observed[member].id;
    assert forall|k: int, r: int| 0 <= k < all.len() && 0 <= r < all[k].requests.len() implies !touches(
        #[trigger] all[k].requests[r],
        id,
    ) by {
        if k < added.len() {
            let change = added[k];
            let wanted = wanted_addition(namespace, policy, observed);
            desired.lemma_filter_map_contains(wanted, change);
        } else {
            let change = corrected[k - added.len()];
            let correct = wanted_correction(namespace, policy, desired, bot_users);
            observed.lemma_filter_map_contains(correct, change);
            let source = choose|source: Membership| #[trigger]
                observed.contains(source) && correct(source) == Some(change);
            let at = choose|at: int| 0 <= at < observed.len() && observed[at] == source;
            assert(at != member);
        }
    }
}

/// A unit has no corrections at all where every member that is not excluded
/// is claimed by an identity of the role and in line, and where no identity
/// with a platform number is missing, or none is added.
pub proof fn lemma_unit_in_line_needs_nothing(
    namespace: Seq<char>,
    policy: MemberPolicy,
    observed: Seq<Membership>,
    desired: Seq<User>,
    bot_users: Option<Seq<char>>,
)
    requires
        policy.add_missing ==> forall|i: int|
            0 <= i < desired.len() && (#[trigger] desired[i]).gitlab_id is Some ==> has_member(
                observed,
                desired[i].gitlab_id->0,
            ),
        forall|i: int|
            0 <= i < observed.len() && !excluded((#[trigger] observed[i]).username, bot_users)
                ==> first_with_gitlab_id(desired, observed[i].id) is Some && !out_of_line(
                policy.rule,
                access_level_of(observed[i].access_level),
                policy.access_level,
            ),
    ensures
        member_changes(namespace, policy, observed, desired, bot_users).len() == 0,
{
    let wanted = wanted_addition(namespace, policy, observed);
    let correct = wanted_correction(namespace, policy, desired, bot_users);
    if policy.add_missing {
        lemma_filter_map_of_nothing(desired, wanted);
    }
    lemma_filter_map_of_nothing(observed, correct);
}

/// A sequence none of whose elements is mapped to anything maps to the
/// empty sequence.
pub proof fn lemma_filter_map_of_nothing<A, B>(items: Seq<A>, f: spec_fn(A) -> Option<B>)
    requires
        forall|i: int| 0 <= i < items.len() ==> f(#[trigger] items[i]) is None,
    ensures
        items.filter_map(f).len() == 0,
    decreases items.len(),
{
    if items.len() > 0 {
        assert forall|i: int| 0 <= i < items.drop_last().len() implies f(
            #[trigger] items.drop_last()[i],
        ) is None by {}
        lemma_filter_map_of_nothing(items.drop_last(), f);
    }
}

/// A rule of a tag that has the one entry it should have needs no
/// correction: once a rule has been set anew, nothing is left to do.
pub proof fn lemma_tag_rule_in_order_needs_nothing(
    project: u64,
    namespace: Seq<char>,
    tag: Seq<char>,
    expected: MyProtectedAccessLevel,
    rule: ProtectedTag,
)
    requires
        entry_levels(rule.create_access_levels@) == seq![expected],
    ensures
        tag_correction(project, namespace, tag, expected, Some(rule)) is None,
{
}

/// A project that has every value of an update needs no correction: once
/// an update has been carried out, nothing is left to do.
pub proof fn lemma_settled_project_needs_nothing(project: GroupProjects, description: Seq<char>)
    ensures
        settled(project, generic_profile()) ==> settings_correction(project, generic_profile())
            is None,
        settled(project, packaging_profile(description)) ==> settings_correction(
            project,
            packaging_profile(description),
        ) is None,
{
}

/// Whether `after` is `project` once the platform has carried out `update`:
/// every field that the update sets has the value it sets, and every other
/// tracked field the value it had.
pub open spec fn carried_out(project: GroupProjects, update: ProjectUpdateView, after: GroupProjects) -> bool {
    &&& description_of(after) == chosen(update.description, description_of(project))
    &&& after.request_access_enabled == chosen(update.request_access_enabled, project.request_access_enabled)
    &&& after.packages_enabled == chosen(update.packages_enabled, project.packages_enabled)
    &&& after.lfs_enabled == chosen(update.lfs_enabled, project.lfs_enabled)
    &&& after.service_desk_enabled == chosen(update.service_desk_enabled, project.service_desk_enabled)
    &&& after.issues_access_level == chosen(update.issues_access_level, project.issues_access_level)
    &&& after.merge_requests_access_level == chosen(update.merge_requests_access_level, project.merge_requests_access_level)
    &&& after.merge_method == chosen(update.merge_method, project.merge_method)
    &&& after.only_allow_merge_if_all_discussions_are_resolved == chosen(update.only_allow_merge_if_all_discussions_are_resolved, project.only_allow_merge_if_all_discussions_are_resolved)
    &&& after.builds_access_level == chosen(update.builds_access_level, project.builds_access_level)
    &&& after.container_registry_access_level == chosen(update.container_registry_access_level, project.container_registry_access_level)
    &&& after.snippets_access_level == chosen(update.snippets_access_level, project.snippets_access_level)
    &&& after.pages_access_level == chosen(update.pages_access_level, project.pages_access_level)
    &&& after.requirements_access_level == chosen(update.requirements_access_level, project.requirements_access_level)
    &&& after.releases_access_level == chosen(update.releases_access_level, project.releases_access_level)
    &&& after.environments_access_level == chosen(update.environments_access_level, project.environments_access_level)
    &&& after.feature_flags_access_level == chosen(update.feature_flags_access_level, project.feature_flags_access_level)
    &&& after.infrastructure_access_level == chosen(update.infrastructure_access_level, project.infrastructure_access_level)
    &&& after.monitor_access_level == chosen(update.monitor_access_level, project.monitor_access_level)
}

/// A project on which an update has been carried out is settled under it: a
/// second run finds nothing to change.
pub proof fn lemma_update_settles(project: GroupProjects, update: ProjectUpdateView, after: GroupProjects)
    requires
        carried_out(project, update, after),
    ensures
        settled(after, update),
        settings_correction(after, update) is None,
{
}

/// A unit without corrections counts nothing.
pub proof fn lemma_no_changes_no_counts(changes: Seq<ChangeView>, kind: ChangeKind)
    requires
        changes.len() == 0,
    ensures
        count_of(changes, kind) == 0,
{
}

/// A group that nobody may ask for access to needs no correction.
pub proof fn lemma_closed_group_needs_nothing(group: Group)
    requires
        !group.request_access_enabled,
    ensures
        group_correction(group) is None,
{
}

} // verus!
