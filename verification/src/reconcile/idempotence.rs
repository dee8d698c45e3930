//! A second run finds nothing to do: the members of a unit after its
//! corrections are carried out need no correction.

use vstd::prelude::*;
use crate::reconcile::change::{ChangeView, RequestView};
use crate::reconcile::members::{
    additions, corrections, excluded, has_member, member_changes, out_of_line, wanted_addition,
    wanted_correction, MemberPolicy,
};
use crate::state::{first_with_gitlab_id, lemma_index_of_gitlab_id, User};
use crate::types::{AccessLevel, Membership};
use crate::util::access_level_of;

verus! {

/// The members that are not the user `id`.
pub open spec fn other_than(id: u64) -> spec_fn(Membership) -> bool {
    |member: Membership| member.id != id
}

/// The member with the level `level` where it is the user `id`, and as it
/// is where it is not.
pub open spec fn with_level(id: u64, level: AccessLevel) -> spec_fn(Membership) -> Membership {
    |member: Membership|
        if member.id == id {
            Membership { id: member.id, username: member.username, access_level: level.rank() }
        } else {
            member
        }
}

/// The members of a unit once the platform has carried out `request`. A user
/// that is added is listed last, under the name that the platform has for
/// it. A request that is not about a member changes nothing.
pub open spec fn after_request(
    members: Seq<Membership>,
    request: RequestView,
    names: spec_fn(u64) -> Seq<char>,
) -> Seq<Membership> {
    match request {
        RequestView::AddMember { user, access_level, .. } => members.push(
            Membership { id: user, username: names(user), access_level: access_level.rank() },
        ),
        RequestView::EditMember { user, access_level, .. } => members.map_values(
            with_level(user, access_level),
        ),
        RequestView::RemoveMember { user, .. } => members.filter(other_than(user)),
        _ => members,
    }
}

/// The members of a unit once the platform has carried out `requests`, one
/// after the other.
pub open spec fn after_requests(
    members: Seq<Membership>,
    requests: Seq<RequestView>,
    names: spec_fn(u64) -> Seq<char>,
) -> Seq<Membership>
    decreases requests.len(),
{
    if requests.len() == 0 {
        members
    } else {
        after_request(after_requests(members, requests.drop_last(), names), requests.last(), names)
    }
}

/// The members of a unit once the platform has carried out the requests of
/// `changes`, one correction after the other.
pub open spec fn after_changes(
    members: Seq<Membership>,
    changes: Seq<ChangeView>,
    names: spec_fn(u64) -> Seq<char>,
) -> Seq<Membership>
    decreases changes.len(),
{
    if changes.len() == 0 {
        members
    } else {
        after_requests(after_changes(members, changes.drop_last(), names), changes.last().requests, names)
    }
}

/// Whether `change` is one request that adds the user `id` with `level`.
pub open spec fn adds(change: ChangeView, id: u64, level: AccessLevel) -> bool {
    change.requests.len() == 1 && (change.requests[0] matches RequestView::AddMember {
        user,
        access_level,
        ..
    } && user == id && access_level == level)
}

/// Whether `change` is one request that gives the member `id` the level
/// `level`.
pub open spec fn edits(change: ChangeView, id: u64, level: AccessLevel) -> bool {
    change.requests.len() == 1 && (change.requests[0] matches RequestView::EditMember {
        user,
        access_level,
        ..
    } && user == id && access_level == level)
}

/// Whether `change` is one request that removes the member `id`.
pub open spec fn removes(change: ChangeView, id: u64) -> bool {
    change.requests.len() == 1 && (change.requests[0] matches RequestView::RemoveMember {
        user,
        ..
    } && user == id)
}

/// Whether one of `changes` adds the user `id` with `level`.
pub open spec fn some_adds(changes: Seq<ChangeView>, id: u64, level: AccessLevel) -> bool {
    exists|k: int| 0 <= k < changes.len() && adds(#[trigger] changes[k], id, level)
}

/// Whether one of `changes` gives the member `id` the level `level`.
pub open spec fn some_edits(changes: Seq<ChangeView>, id: u64, level: AccessLevel) -> bool {
    exists|k: int| 0 <= k < changes.len() && edits(#[trigger] changes[k], id, level)
}

/// Whether one of `changes` removes the member `id`.
pub open spec fn some_removes(changes: Seq<ChangeView>, id: u64) -> bool {
    exists|k: int| 0 <= k < changes.len() && removes(#[trigger] changes[k], id)
}

/// The user that a correction of a member is about.
pub open spec fn subject(change: ChangeView) -> u64 {
    match change.requests[0] {
        RequestView::AddMember { user, .. } => user,
        RequestView::EditMember { user, .. } => user,
        RequestView::RemoveMember { user, .. } => user,
        _ => 0,
    }
}

/// Whether `change` is one request about a member, with `level` where it
/// adds or edits.
pub open spec fn about_member(change: ChangeView, level: AccessLevel) -> bool {
    adds(change, subject(change), level) || edits(change, subject(change), level) || removes(
        change,
        subject(change),
    )
}

/// Whether `member` stems from `source`, a member before the corrections:
/// it is the same user, nothing removes it, and it has the level `level`
/// where a correction edits it, and the level it had where none does.
pub open spec fn kept_from(
    member: Membership,
    source: Membership,
    changes: Seq<ChangeView>,
    level: AccessLevel,
) -> bool {
    &&& member.id == source.id
    &&& member.username == source.username
    &&& !some_removes(changes, member.id)
    &&& if some_edits(changes, member.id, level) {
        member.access_level == level.rank()
    } else {
        member.access_level == source.access_level
    }
}

/// Whether a member after the corrections is accounted for: it stems from a
/// member before them, or a correction added it.
pub open spec fn accounted(
    member: Membership,
    observed: Seq<Membership>,
    changes: Seq<ChangeView>,
    level: AccessLevel,
) -> bool {
    ||| exists|j: int|
        0 <= j < observed.len() && kept_from(member, #[trigger] observed[j], changes, level)
    ||| some_adds(changes, member.id, level) && member.access_level == level.rank()
}

/// What the members after the corrections `changes` are, given the members
/// `observed` before them.
pub open spec fn follows(
    observed: Seq<Membership>,
    changes: Seq<ChangeView>,
    level: AccessLevel,
    after: Seq<Membership>,
) -> bool {
    &&& forall|i: int|
        0 <= i < after.len() ==> accounted(#[trigger] after[i], observed, changes, level)
    &&& forall|id: u64|
        (has_member(observed, id) || some_adds(changes, id, level)) && !some_removes(changes, id)
            ==> #[trigger] has_member(after, id)
}

proof fn lemma_mentions_grow(changes: Seq<ChangeView>, id: u64, level: AccessLevel)
    requires
        changes.len() > 0,
    ensures
        some_adds(changes, id, level) <==> some_adds(changes.drop_last(), id, level) || adds(
            changes.last(),
            id,
            level,
        ),
        some_edits(changes, id, level) <==> some_edits(changes.drop_last(), id, level) || edits(
            changes.last(),
            id,
            level,
        ),
        some_removes(changes, id) <==> some_removes(changes.drop_last(), id) || removes(
            changes.last(),
            id,
        ),
{
    let rest = changes.drop_last();
    if some_adds(changes, id, level) {
        let k = choose|k: int| 0 <= k < changes.len() && adds(#[trigger] changes[k], id, level);
        if k < rest.len() {
            assert(adds(rest[k], id, level));
        }
    }
    if some_adds(rest, id, level) {
        let k = choose|k: int| 0 <= k < rest.len() && adds(#[trigger] rest[k], id, level);
        assert(adds(changes[k], id, level));
    }
    if some_edits(changes, id, level) {
        let k = choose|k: int| 0 <= k < changes.len() && edits(#[trigger] changes[k], id, level);
        if k < rest.len() {
            assert(edits(rest[k], id, level));
        }
    }
    if some_edits(rest, id, level) {
        let k = choose|k: int| 0 <= k < rest.len() && edits(#[trigger] rest[k], id, level);
        assert(edits(changes[k], id, level));
    }
    if some_removes(changes, id) {
        let k = choose|k: int| 0 <= k < changes.len() && removes(#[trigger] changes[k], id);
        if k < rest.len() {
            assert(removes(rest[k], id));
        }
    }
    if some_removes(rest, id) {
        let k = choose|k: int| 0 <= k < rest.len() && removes(#[trigger] rest[k], id);
        assert(removes(changes[k], id));
    }
}

/// The members after corrections that are each one request about a member
/// are accounted for, and hold every user that was a member or was added and
/// that nothing removes.
pub proof fn lemma_members_follow(
    observed: Seq<Membership>,
    changes: Seq<ChangeView>,
    level: AccessLevel,
    names: spec_fn(u64) -> Seq<char>,
)
    requires
        forall|k: int| 0 <= k < changes.len() ==> about_member(#[trigger] changes[k], level),
    ensures
        follows(observed, changes, level, after_changes(observed, changes, names)),
    decreases changes.len(),
{
    let after = after_changes(observed, changes, names);
    if changes.len() == 0 {
        assert forall|i: int| 0 <= i < after.len() implies accounted(
            #[trigger] after[i],
            observed,
            changes,
            level,
        ) by {}
    } else {
        let rest = changes.drop_last();
        let last = changes.last();
        let before = after_changes(observed, rest, names);
        assert forall|k: int| 0 <= k < rest.len() implies about_member(#[trigger] rest[k], level) by {}
        lemma_members_follow(observed, rest, level, names);
        assert(after_requests(before, last.requests.drop_last(), names) == before);
        let id = subject(last);
        assert forall|x: u64| true implies (some_adds(changes, x, level) <==> some_adds(rest, x, level)
            || adds(last, x, level)) && (some_edits(changes, x, level) <==> some_edits(
            rest,
            x,
            level,
        ) || edits(last, x, level)) && (#[trigger] some_removes(changes, x) <==> some_removes(rest, x)
            || removes(last, x)) by {
            lemma_mentions_grow(changes, x, level);
        }
        if adds(last, id, level) {
            assert forall|i: int| 0 <= i < after.len() implies accounted(
                #[trigger] after[i],
                observed,
                changes,
                level,
            ) by {
                lemma_follow_step(observed, changes, level, before, after[i], i);
            }
            assert forall|x: u64|
                (has_member(observed, x) || some_adds(changes, x, level)) && !some_removes(
                    changes,
                    x,
                ) implies #[trigger] has_member(after, x) by {
                lemma_mentions_grow(changes, x, level);
                if x == id {
                    assert(after[after.len() - 1].id == x);
                } else {
                    assert(has_member(before, x));
                    let j = choose|j: int| 0 <= j < before.len() && (#[trigger] before[j]).id == x;
                    assert(after[j].id == x);
                }
            }
        } else if edits(last, id, level) {
            assert forall|i: int| 0 <= i < after.len() implies accounted(
                #[trigger] after[i],
                observed,
                changes,
                level,
            ) by {
                lemma_follow_step(observed, changes, level, before, after[i], i);
            }
            assert forall|x: u64|
                (has_member(observed, x) || some_adds(changes, x, level)) && !some_removes(
                    changes,
                    x,
                ) implies #[trigger] has_member(after, x) by {
                lemma_mentions_grow(changes, x, level);
                assert(has_member(before, x));
                let j = choose|j: int| 0 <= j < before.len() && (#[trigger] before[j]).id == x;
                assert(after[j].id == x);
            }
        } else {
            assert forall|i: int| 0 <= i < after.len() implies accounted(
                #[trigger] after[i],
                observed,
                changes,
                level,
            ) by {
                before.lemma_filter_pred(other_than(id), i);
                before.lemma_filter_contains_rev(other_than(id), after[i]);
                let j = choose|j: int| 0 <= j < before.len() && before[j] == after[i];
                lemma_follow_step(observed, changes, level, before, after[i], j);
            }
            assert forall|x: u64|
                (has_member(observed, x) || some_adds(changes, x, level)) && !some_removes(
                    changes,
                    x,
                ) implies #[trigger] has_member(after, x) by {
                lemma_mentions_grow(changes, x, level);
                assert(has_member(before, x));
                let j = choose|j: int| 0 <= j < before.len() && (#[trigger] before[j]).id == x;
                before.lemma_filter_contains(other_than(id), j);
                let at = choose|at: int| 0 <= at < after.len() && after[at] == before[j];
                assert(after[at].id == x);
            }
        }
    }
}

/// One step of `lemma_members_follow`: a member after the last correction
/// is accounted for, given that the member before it at index `at` was, and
/// that the member is what the last correction makes of that one, or what
/// it adds.
proof fn lemma_follow_step(
    observed: Seq<Membership>,
    changes: Seq<ChangeView>,
    level: AccessLevel,
    before: Seq<Membership>,
    member: Membership,
    at: int,
)
    requires
        changes.len() > 0,
        about_member(changes.last(), level),
        follows(observed, changes.drop_last(), level, before),
        ({
            let last = changes.last();
            let id = subject(last);
            ||| adds(last, id, level) && (if at == before.len() {
                member.id == id && member.access_level == level.rank()
            } else {
                0 <= at < before.len() && member == before[at]
            })
            ||| edits(last, id, level) && 0 <= at < before.len() && member == with_level(id, level)(
                before[at],
            )
            ||| removes(last, id) && 0 <= at < before.len() && member == before[at] && member.id
                != id
        }),
    ensures
        accounted(member, observed, changes, level),
{
    let last = changes.last();
    let id = subject(last);
    lemma_mentions_grow(changes, member.id, level);
    if !(adds(last, id, level) && at == before.len()) {
        lemma_mentions_grow(changes, before[at].id, level);
    }
}

/// What a sequence maps to holds what each of its elements is mapped to.
pub proof fn lemma_filter_map_holds_image<A, B>(items: Seq<A>, f: spec_fn(A) -> Option<B>, at: int)
    requires
        0 <= at < items.len(),
        f(items[at]) is Some,
    ensures
        items.filter_map(f).contains(f(items[at])->0),
    decreases items.len(),
{
    let rest = items.drop_last();
    let image = f(items[at])->0;
    if at == items.len() - 1 {
        let mapped = items.filter_map(f);
        assert(mapped[mapped.len() - 1] == image);
    } else {
        lemma_filter_map_holds_image(rest, f, at);
        let k = choose|k: int| 0 <= k < rest.filter_map(f).len() && rest.filter_map(f)[k] == image;
        assert(items.filter_map(f)[k] == image);
    }
}

/// An identity with the platform number `id` among `desired` makes the
/// search for that number succeed.
pub proof fn lemma_listed_number_is_found(desired: Seq<User>, id: u64, at: int)
    requires
        0 <= at < desired.len(),
        desired[at].gitlab_id == Some(id),
    ensures
        first_with_gitlab_id(desired, id) is Some,
{
    lemma_index_of_gitlab_id(desired, id, 0);
}

/// Where a correction of a unit comes from: an identity of the role that
/// is to be added, or a member that is to be removed or adjusted.
pub proof fn lemma_change_has_a_source(
    namespace: Seq<char>,
    policy: MemberPolicy,
    observed: Seq<Membership>,
    desired: Seq<User>,
    bot_users: Option<Seq<char>>,
    k: int,
)
    requires
        0 <= k < member_changes(namespace, policy, observed, desired, bot_users).len(),
    ensures
        ({
            let change = member_changes(namespace, policy, observed, desired, bot_users)[k];
            ||| exists|i: int|
                0 <= i < desired.len() && policy.add_missing && wanted_addition(
                    namespace,
                    policy,
                    observed,
                )(#[trigger] desired[i]) == Some(change)
            ||| exists|j: int|
                0 <= j < observed.len() && wanted_correction(
                    namespace,
                    policy,
                    desired,
                    bot_users,
                )(#[trigger] observed[j]) == Some(change)
        }),
{
    let added = additions(namespace, policy, observed, desired);
    let corrected = corrections(namespace, policy, observed, desired, bot_users);
    if k < added.len() {
        let change = added[k];
        let wanted = wanted_addition(namespace, policy, observed);
        desired.lemma_filter_map_contains(wanted, change);
        let user = choose|user: User| #[trigger] desired.contains(user) && wanted(user) == Some(change);
        let i = choose|i: int| 0 <= i < desired.len() && desired[i] == user;
    } else {
        let change = corrected[k - added.len()];
        let correct = wanted_correction(namespace, policy, desired, bot_users);
        observed.lemma_filter_map_contains(correct, change);
        let source = choose|source: Membership| #[trigger]
            observed.contains(source) && correct(source) == Some(change);
        let j = choose|j: int| 0 <= j < observed.len() && observed[j] == source;
        assert(correct(observed[j]) == Some(change));
    }
}

/// Carrying out the corrections of a unit leaves it without corrections: a
/// second run, with the same directory, finds nothing to add, to change or
/// to remove, whatever names the platform has for the users that were added.
pub proof fn lemma_members_idempotent(
    namespace: Seq<char>,
    policy: MemberPolicy,
    observed: Seq<Membership>,
    desired: Seq<User>,
    bot_users: Option<Seq<char>>,
    names: spec_fn(u64) -> Seq<char>,
)
    ensures
        member_changes(
            namespace,
            policy,
            after_changes(
                observed,
                member_changes(namespace, policy, observed, desired, bot_users),
                names,
            ),
            desired,
            bot_users,
        ).len() == 0,
{
    let level = policy.access_level;
    let changes = member_changes(namespace, policy, observed, desired, bot_users);
    let after = after_changes(observed, changes, names);
    let wanted = wanted_addition(namespace, policy, observed);
    let correct = wanted_correction(namespace, policy, desired, bot_users);
    let added = additions(namespace, policy, observed, desired);
    assert forall|k: int| 0 <= k < changes.len() implies about_member(#[trigger] changes[k], level) by {
        lemma_change_has_a_source(namespace, policy, observed, desired, bot_users, k);
    }
    lemma_members_follow(observed, changes, level, names);
    // Nothing removes a user that an identity of the role has as its number.
    assert forall|id: u64| #[trigger]
        some_removes(changes, id) implies first_with_gitlab_id(desired, id) is None by {
        let k = choose|k: int| 0 <= k < changes.len() && removes(#[trigger] changes[k], id);
        lemma_change_has_a_source(namespace, policy, observed, desired, bot_users, k);
    }
    // What is added is the number of an identity of the role.
    assert forall|id: u64| #[trigger]
        some_adds(changes, id, level) implies first_with_gitlab_id(desired, id) is Some by {
        let k = choose|k: int| 0 <= k < changes.len() && adds(#[trigger] changes[k], id, level);
        lemma_change_has_a_source(namespace, policy, observed, desired, bot_users, k);
        if exists|i: int|
            0 <= i < desired.len() && policy.add_missing && wanted(#[trigger] desired[i]) == Some(
                changes[k],
            ) {
            let i = choose|i: int|
                0 <= i < desired.len() && policy.add_missing && wanted(#[trigger] desired[i])
                    == Some(changes[k]);
            lemma_listed_number_is_found(desired, id, i);
        }
    }
    if policy.add_missing {
        assert forall|i: int|
            0 <= i < desired.len() && (#[trigger] desired[i]).gitlab_id is Some implies has_member(
            after,
            desired[i].gitlab_id->0,
        ) by {
            let id = desired[i].gitlab_id->0;
            lemma_listed_number_is_found(desired, id, i);
            if !has_member(observed, id) {
                lemma_filter_map_holds_image(desired, wanted, i);
                let image = wanted(desired[i])->0;
                let k = choose|k: int| 0 <= k < added.len() && added[k] == image;
                assert(changes[k] == image);
            }
        }
    }
    assert forall|i: int|
        0 <= i < after.len() && !excluded(
            (#[trigger] after[i]).username,
            bot_users,
        ) implies first_with_gitlab_id(desired, after[i].id) is Some && !out_of_line(
        policy.rule,
        access_level_of(after[i].access_level),
        level,
    ) by {
        let member = after[i];
        if !(some_adds(changes, member.id, level) && member.access_level == level.rank()) {
            let j = choose|j: int|
                0 <= j < observed.len() && kept_from(member, #[trigger] observed[j], changes, level);
            let source = observed[j];
            if correct(source) is Some {
                lemma_filter_map_holds_image(observed, correct, j);
                let image = correct(source)->0;
                let corrected = observed.filter_map(correct);
                let at = choose|at: int| 0 <= at < corrected.len() && corrected[at] == image;
                assert(changes[added.len() + at] == image);
            }
        }
    }
    crate::reconcile::laws::lemma_unit_in_line_needs_nothing(
        namespace,
        policy,
        after,
        desired,
        bot_users,
    );
}

} // verus!
