//! The members that a group or project has, against the identities that
//! should have access to it.

use vstd::prelude::*;
use vstd::string::*;
use crate::reconcile::change::{
    change_views, Change, ChangeKind, ChangeView, Request, RequestView, Scope,
};
use crate::state::{find_gitlab_id, first_with_gitlab_id, users_of, User};
use crate::text::{chars_of, same_text, texts};
use crate::text::fields::{fields, split};
use crate::types::{memberships, AccessLevel, GitLabMember, Membership};
use crate::util::{access_level_from_u64, access_level_of, format_gitlab_member_access, member_access_text};

verus! {

broadcast use vstd::string::group_string_axioms;

/// The text of a list that may be absent.
pub open spec fn list_text(list: Option<&str>) -> Option<Seq<char>> {
    match list {
        Some(text) => Some(text@),
        None => None,
    }
}

/// Whether `username` is the name of an account that is never touched: the
/// owner `archceo`, the bot `archbot`, or a name of the list `bot_users`,
/// whose names are separated by commas.
pub open spec fn excluded(username: Seq<char>, bot_users: Option<Seq<char>>) -> bool {
    ||| username == "archceo"@
    ||| username == "archbot"@
    ||| (bot_users matches Some(list) && fields(list, ',').contains(username))
}

/// Whether `member` is an account that is never touched.
pub fn is_archlinux_bot(member: &GitLabMember, bot_users: Option<&str>) -> (bot: bool)
    ensures
        bot == excluded(member@.username, list_text(bot_users)),
{
    let username = chars_of(member.username.as_str());
    if same_text(&username, &chars_of("archceo")) {
        return true;
    }
    if same_text(&username, &chars_of("archbot")) {
        return true;
    }
    match bot_users {
        Some(list) => {
            let names = split(&chars_of(list), ',');
            let mut i: usize = 0;
            while i < names.len()
                invariant
                    i <= names.len(),
                    bot_users == Some(list),
                    username@ == member.username@,
                    texts(names@) == fields(list@, ','),
                    forall|k: int| 0 <= k < i ==> texts(names@)[k] != username@,
                decreases names.len() - i,
            {
                if same_text(&names[i], &username) {
                    assert(fields(list@, ',')[i as int] == username@);
                    return true;
                }
                i += 1;
            }
            false
        },
        None => false,
    }
}

/// How the access level of a member is held against the level of the unit.
#[derive(Debug, Clone, Copy, PartialEq, Eq, Structural)]
pub enum AccessRule {
    /// The member has exactly the level of the unit.
    Exact,
    /// The member has at most the level of the unit.
    AtMost,
}

/// Whether a member with the level `current` is out of line with the level
/// `expected` under `rule`.
pub open spec fn out_of_line(rule: AccessRule, current: AccessLevel, expected: AccessLevel) -> bool {
    match rule {
        AccessRule::Exact => current != expected,
        AccessRule::AtMost => current.rank() > expected.rank(),
    }
}

/// Whether a member with the level `current` is out of line with the level
/// `expected` under `rule`.
pub fn is_out_of_line(rule: AccessRule, current: AccessLevel, expected: AccessLevel) -> (out: bool)
    ensures
        out == out_of_line(rule, current, expected),
{
    match rule {
        AccessRule::Exact => current != expected,
        AccessRule::AtMost => current.as_u64() > expected.as_u64(),
    }
}

/// What the members of a unit should be.
#[derive(Debug, Clone, Copy, PartialEq, Eq, Structural)]
pub struct MemberPolicy {
    pub scope: Scope,
    /// The level that the identities of the role should have.
    pub access_level: AccessLevel,
    pub rule: AccessRule,
    /// Whether an identity of the role that is no member yet becomes one.
    pub add_missing: bool,
}

/// Whether one of `observed` has the platform number `id`.
pub open spec fn has_member(observed: Seq<Membership>, id: u64) -> bool {
    exists|i: int| 0 <= i < observed.len() && (#[trigger] observed[i]).id == id
}

/// The correction that makes the identity named `username`, with the
/// platform number `id`, a member.
pub open spec fn addition(
    namespace: Seq<char>,
    policy: MemberPolicy,
    username: Seq<char>,
    id: u64,
) -> ChangeView {
    ChangeView {
        kind: ChangeKind::Add,
        before: Seq::empty(),
        after: member_access_text(namespace, username, policy.access_level),
        requests: seq![
            RequestView::AddMember {
                scope: policy.scope,
                namespace,
                user: id,
                access_level: policy.access_level,
            },
        ],
    }
}

/// The request that gives the member `id` the level of the unit.
pub open spec fn level_request(namespace: Seq<char>, policy: MemberPolicy, id: u64) -> RequestView {
    RequestView::EditMember {
        scope: policy.scope,
        namespace,
        user: id,
        access_level: policy.access_level,
    }
}

/// The correction that gives the member `id`, known to the directory as
/// `username`, the level of the unit in place of `current`.
pub open spec fn adjustment(
    namespace: Seq<char>,
    policy: MemberPolicy,
    username: Seq<char>,
    id: u64,
    current: AccessLevel,
) -> ChangeView {
    ChangeView {
        kind: ChangeKind::Change,
        before: member_access_text(namespace, username, current),
        after: member_access_text(namespace, username, policy.access_level),
        requests: seq![level_request(namespace, policy, id)],
    }
}

/// The correction that takes the member `id`, named `username` on the
/// platform, out of the unit.
pub open spec fn removal(
    namespace: Seq<char>,
    scope: Scope,
    username: Seq<char>,
    id: u64,
    current: AccessLevel,
) -> ChangeView {
    ChangeView {
        kind: ChangeKind::Destroy,
        before: member_access_text(namespace, username, current),
        after: Seq::empty(),
        requests: seq![RequestView::RemoveMember { scope, namespace, user: id }],
    }
}

/// The addition that an identity of the role calls for: one where its
/// platform number is known and no member has it, none otherwise.
pub open spec fn wanted_addition(
    namespace: Seq<char>,
    policy: MemberPolicy,
    observed: Seq<Membership>,
) -> spec_fn(User) -> Option<ChangeView> {
    |user: User|
        match user.gitlab_id {
            Some(id) => if has_member(observed, id) {
                None
            } else {
                Some(addition(namespace, policy, user.username@, id))
            },
            None => None,
        }
}

/// The correction that a member calls for. An excluded account calls for
/// none. A member that no identity of the role claims is removed. A member
/// whose level is out of line gets the level of the unit.
pub open spec fn wanted_correction(
    namespace: Seq<char>,
    policy: MemberPolicy,
    desired: Seq<User>,
    bot_users: Option<Seq<char>>,
) -> spec_fn(Membership) -> Option<ChangeView> {
    |member: Membership|
        if excluded(member.username, bot_users) {
            None
        } else {
            match first_with_gitlab_id(desired, member.id) {
                None => Some(
                    removal(
                        namespace,
                        policy.scope,
                        member.username,
                        member.id,
                        access_level_of(member.access_level),
                    ),
                ),
                Some(user) => if out_of_line(
                    policy.rule,
                    access_level_of(member.access_level),
                    policy.access_level,
                ) {
                    Some(
                        adjustment(
                            namespace,
                            policy,
                            user.username@,
                            member.id,
                            access_level_of(member.access_level),
                        ),
                    )
                } else {
                    None
                },
            }
        }
}

/// The additions of a unit, in the order of the role's identities.
pub open spec fn additions(
    namespace: Seq<char>,
    policy: MemberPolicy,
    observed: Seq<Membership>,
    desired: Seq<User>,
) -> Seq<ChangeView> {
    if policy.add_missing {
        desired.filter_map(wanted_addition(namespace, policy, observed))
    } else {
        Seq::empty()
    }
}

/// The removals and adjustments of a unit, in the order of its members.
pub open spec fn corrections(
    namespace: Seq<char>,
    policy: MemberPolicy,
    observed: Seq<Membership>,
    desired: Seq<User>,
    bot_users: Option<Seq<char>>,
) -> Seq<ChangeView> {
    observed.filter_map(wanted_correction(namespace, policy, desired, bot_users))
}

/// The corrections of the members of a unit: the additions, then the
/// removals and adjustments.
pub open spec fn member_changes(
    namespace: Seq<char>,
    policy: MemberPolicy,
    observed: Seq<Membership>,
    desired: Seq<User>,
    bot_users: Option<Seq<char>>,
) -> Seq<ChangeView> {
    additions(namespace, policy, observed, desired) + corrections(
        namespace,
        policy,
        observed,
        desired,
        bot_users,
    )
}

/// Whether one of `observed` has the platform number `id`.
pub fn is_member(observed: &Vec<GitLabMember>, id: u64) -> (found: bool)
    ensures
        found == has_member(memberships(observed@), id),
{
    let mut i: usize = 0;
    while i < observed.len()
        invariant
            i <= observed.len(),
            forall|k: int| 0 <= k < i ==> (#[trigger] memberships(observed@)[k]).id != id,
        decreases observed.len() - i,
    {
        if observed[i].id == id {
            assert(memberships(observed@)[i as int].id == id);
            return true;
        }
        i += 1;
    }
    false
}

fn add_member(namespace: &str, policy: MemberPolicy, username: &str, id: u64) -> (change: Change)
    ensures
        change@ == addition(namespace@, policy, username@, id),
{
    let mut requests: Vec<Request> = Vec::new();
    requests.push(
        Request::AddMember {
            scope: policy.scope,
            namespace: String::from_str(namespace),
            user: id,
            access_level: policy.access_level,
        },
    );
    let change = Change {
        kind: ChangeKind::Add,
        before: String::new(),
        after: format_gitlab_member_access(namespace, username, policy.access_level),
        requests,
    };
    assert(change@.requests =~= addition(namespace@, policy, username@, id).requests);
    change
}

fn edit_member(
    namespace: &str,
    policy: MemberPolicy,
    username: &str,
    id: u64,
    current: AccessLevel,
) -> (change: Change)
    ensures
        change@ == adjustment(namespace@, policy, username@, id, current),
{
    let mut requests: Vec<Request> = Vec::new();
    requests.push(
        Request::EditMember {
            scope: policy.scope,
            namespace: String::from_str(namespace),
            user: id,
            access_level: policy.access_level,
        },
    );
    let change = Change {
        kind: ChangeKind::Change,
        before: format_gitlab_member_access(namespace, username, current),
        after: format_gitlab_member_access(namespace, username, policy.access_level),
        requests,
    };
    assert(change@.requests =~= adjustment(namespace@, policy, username@, id, current).requests);
    change
}

fn remove_member(
    namespace: &str,
    scope: Scope,
    username: &str,
    id: u64,
    current: AccessLevel,
) -> (change: Change)
    ensures
        change@ == removal(namespace@, scope, username@, id, current),
{
    let mut requests: Vec<Request> = Vec::new();
    requests.push(Request::RemoveMember { scope, namespace: String::from_str(namespace), user: id });
    let change = Change {
        kind: ChangeKind::Destroy,
        before: format_gitlab_member_access(namespace, username, current),
        after: String::new(),
        requests,
    };
    assert(change@.requests =~= removal(namespace@, scope, username@, id, current).requests);
    change
}

/// The corrections of the members of the unit `namespace`: `observed` are
/// its members, `desired` the identities of its role.
pub fn reconcile_members(
    namespace: &str,
    policy: MemberPolicy,
    observed: &Vec<GitLabMember>,
    desired: &Vec<&User>,
    bot_users: Option<&str>,
) -> (changes: Vec<Change>)
    ensures
        change_views(changes@) == member_changes(
            namespace@,
            policy,
            memberships(observed@),
            users_of(desired@),
            list_text(bot_users),
        ),
{
    let mut changes: Vec<Change> = Vec::new();
    let ghost wanted = wanted_addition(namespace@, policy, memberships(observed@));
    if policy.add_missing {
        let mut i: usize = 0;
        while i < desired.len()
            invariant
                i <= desired.len(),
                wanted == wanted_addition(namespace@, policy, memberships(observed@)),
                change_views(changes@) == users_of(desired@).take(i as int).filter_map(wanted),
            decreases desired.len() - i,
        {
            let ghost before = change_views(changes@);
            let user: &User = desired[i];
            match user.gitlab_id {
                Some(id) => {
                    if !is_member(observed, id) {
                        let change = add_member(namespace, policy, user.username.as_str(), id);
                        changes.push(change);
                    }
                },
                None => {},
            }
            i += 1;
            proof {
                let upto = users_of(desired@).take(i as int);
                assert(upto.drop_last() =~= users_of(desired@).take(i - 1));
            }
        }
        assert(users_of(desired@).take(desired@.len() as int) =~= users_of(desired@));
    }
    let ghost added = change_views(changes@);
    let ghost correct = wanted_correction(
        namespace@,
        policy,
        users_of(desired@),
        list_text(bot_users),
    );
    let mut k: usize = 0;
    while k < observed.len()
        invariant
            k <= observed.len(),
            correct == wanted_correction(
                namespace@,
                policy,
                users_of(desired@),
                list_text(bot_users),
            ),
            change_views(changes@) == added + memberships(observed@).take(k as int).filter_map(
                correct,
            ),
        decreases observed.len() - k,
    {
        let ghost before = change_views(changes@);
        let member = &observed[k];
        if !is_archlinux_bot(member, bot_users) {
            let current = access_level_from_u64(member.access_level);
            match find_gitlab_id(desired, member.id) {
                None => {
                    let change = remove_member(
                        namespace,
                        policy.scope,
                        member.username.as_str(),
                        member.id,
                        current,
                    );
                    changes.push(change);
                    assert(change_views(changes@) =~= before + seq![change@]);
                },
                Some(user) => {
                    if is_out_of_line(policy.rule, current, policy.access_level) {
                        let change = edit_member(
                            namespace,
                            policy,
                            user.username.as_str(),
                            member.id,
                            current,
                        );
                        changes.push(change);
                        assert(change_views(changes@) =~= before + seq![change@]);
                    }
                },
            }
        }
        k += 1;
        proof {
            let upto = memberships(observed@).take(k as int);
            assert(upto.drop_last() =~= memberships(observed@).take(k - 1));
        }
    }
    assert(memberships(observed@).take(observed@.len() as int) =~= memberships(observed@));
    changes
}

} // verus!
