//! What the directory reports: which of its groups are read, and how the
//! membership of an identity in a group is recorded.

use vstd::prelude::*;
use vstd::string::*;
use crate::state::{State, User};
use crate::text::same_str;

verus! {

broadcast use vstd::string::group_string_axioms;

/// A group of the directory, with the groups below it.
#[derive(Debug)]
pub struct DirectoryGroup {
    pub id: String,
    pub name: String,
    pub path: String,
    pub sub_groups: Vec<DirectoryGroup>,
}

/// Whether a group named `name` is one of the two whose members are read:
/// `Arch Linux Staff` and `External Contributors`.
pub open spec fn root_group(name: Seq<char>) -> bool {
    name == "Arch Linux Staff"@ || name == "External Contributors"@
}

/// Whether a group named `name` is one of the two whose members are read.
pub fn is_root_group(name: &str) -> (root: bool)
    ensures
        root == root_group(name@),
{
    same_str(name, "Arch Linux Staff") || same_str(name, "External Contributors")
}

/// The groups below the groups `groups`, in order.
pub open spec fn children(groups: Seq<DirectoryGroup>) -> Seq<DirectoryGroup>
    decreases groups.len(),
{
    if groups.len() == 0 {
        Seq::empty()
    } else {
        children(groups.drop_last()) + groups.last().sub_groups@
    }
}

/// The groups that are read for `group`: the group itself, the groups below
/// it, and the groups below those.
pub open spec fn family(group: DirectoryGroup) -> Seq<DirectoryGroup> {
    seq![group] + group.sub_groups@ + children(group.sub_groups@)
}

/// The groups whose members are read, given all groups at the top of the
/// directory: the family of each root group, in order.
pub open spec fn collected(all: Seq<DirectoryGroup>) -> Seq<DirectoryGroup>
    decreases all.len(),
{
    if all.len() == 0 {
        Seq::empty()
    } else if root_group(all.last().name@) {
        collected(all.drop_last()) + family(all.last())
    } else {
        collected(all.drop_last())
    }
}

/// The groups behind a list of references.
pub open spec fn groups_of(found: Seq<&DirectoryGroup>) -> Seq<DirectoryGroup> {
    found.map_values(|group: &DirectoryGroup| *group)
}

/// Appends references to the groups `groups` to `found`.
fn collect_all<'a>(found: &mut Vec<&'a DirectoryGroup>, groups: &'a Vec<DirectoryGroup>)
    ensures
        groups_of(final(found)@) == groups_of(old(found)@) + groups@,
{
    let mut i: usize = 0;
    while i < groups.len()
        invariant
            i <= groups.len(),
            groups_of(found@) == groups_of(old(found)@) + groups@.take(i as int),
        decreases groups.len() - i,
    {
        let ghost before = groups_of(found@);
        found.push(&groups[i]);
        assert(groups_of(found@) =~= before.push(groups@[i as int]));
        i += 1;
    }
}

/// Appends references to the groups below the groups `groups` to `found`.
fn collect_children<'a>(found: &mut Vec<&'a DirectoryGroup>, groups: &'a Vec<DirectoryGroup>)
    ensures
        groups_of(final(found)@) == groups_of(old(found)@) + children(groups@),
{
    let mut i: usize = 0;
    while i < groups.len()
        invariant
            i <= groups.len(),
            groups_of(found@) == groups_of(old(found)@) + children(groups@.take(i as int)),
        decreases groups.len() - i,
    {
        collect_all(found, &groups[i].sub_groups);
        i += 1;
        proof {
            assert(groups@.take(i as int).drop_last() =~= groups@.take(i - 1));
        }
    }
    assert(groups@.take(groups@.len() as int) =~= groups@);
}

/// The groups whose members are read, given all groups at the top of the
/// directory.
pub fn groups_to_collect(all: &Vec<DirectoryGroup>) -> (found: Vec<&DirectoryGroup>)
    ensures
        groups_of(found@) == collected(all@),
{
    let mut found: Vec<&DirectoryGroup> = Vec::new();
    let mut i: usize = 0;
    while i < all.len()
        invariant
            i <= all.len(),
            groups_of(found@) == collected(all@.take(i as int)),
        decreases all.len() - i,
    {
        let group = &all[i];
        if is_root_group(group.name.as_str()) {
            found.push(group);
            collect_all(&mut found, &group.sub_groups);
            collect_children(&mut found, &group.sub_groups);
        }
        i += 1;
        assert(all@.take(i as int).drop_last() =~= all@.take(i - 1));
    }
    assert(all@.take(all@.len() as int) =~= all@);
    found
}

/// The actions that an identity has to take once it has to set up a
/// one-time password: those it had to take, and `CONFIGURE_TOTP` behind them
/// unless it was among them.
pub open spec fn with_totp(required_actions: Option<Seq<Seq<char>>>) -> Seq<Seq<char>> {
    match required_actions {
        None => seq!["CONFIGURE_TOTP"@],
        Some(actions) => if actions.contains("CONFIGURE_TOTP"@) {
            actions
        } else {
            actions.push("CONFIGURE_TOTP"@)
        },
    }
}

/// The texts of actions that may be absent.
pub open spec fn action_texts(required_actions: Option<Vec<String>>) -> Option<Seq<Seq<char>>> {
    match required_actions {
        Some(actions) => Some(crate::text::string_texts(actions@)),
        None => None,
    }
}

/// Adds the set-up of a one-time password to the actions that an identity
/// has to take.
pub fn users_required_actions_add(required_actions: Option<Vec<String>>) -> (actions: Vec<String>)
    ensures
        crate::text::string_texts(actions@) == with_totp(action_texts(required_actions)),
{
    let ghost wanted = with_totp(action_texts(required_actions));
    match required_actions {
        None => {
            let mut actions: Vec<String> = Vec::new();
            actions.push(String::from_str("CONFIGURE_TOTP"));
            actions
        },
        Some(mut actions) => {
            let ghost before = crate::text::string_texts(actions@);
            let mut i: usize = 0;
            while i < actions.len()
                invariant
                    i <= actions.len(),
                    before == crate::text::string_texts(actions@),
                    wanted == with_totp(Some(before)),
                    wanted == with_totp(action_texts(required_actions)),
                    forall|k: int| 0 <= k < i ==> before[k] != "CONFIGURE_TOTP"@,
                decreases actions.len() - i,
            {
                if same_str(actions[i].as_str(), "CONFIGURE_TOTP") {
                    assert(before[i as int] == "CONFIGURE_TOTP"@);
                    return actions;
                }
                i += 1;
            }
            actions.push(String::from_str("CONFIGURE_TOTP"));
            actions
        },
    }
}

/// The index of the first of `users` at or after `from` that is named
/// `username`, or the length of `users` where there is none.
pub open spec fn index_of_username(users: Seq<User>, username: Seq<char>, from: int) -> int
    decreases users.len() - from,
{
    if from < 0 || from >= users.len() {
        users.len() as int
    } else if users[from].username@ == username {
        from
    } else {
        index_of_username(users, username, from + 1)
    }
}

/// What the index of a username says: it is at or after `from`, names the
/// identity where it is within `users`, and no identity between `from` and
/// it has the name.
pub proof fn lemma_index_of_username(users: Seq<User>, username: Seq<char>, from: int)
    requires
        0 <= from <= users.len(),
    ensures
        from <= index_of_username(users, username, from) <= users.len(),
        index_of_username(users, username, from) < users.len() ==> users[index_of_username(
            users,
            username,
            from,
        )].username@ == username,
        forall|k: int|
            from <= k < index_of_username(users, username, from) ==> (#[trigger] users[k]).username@
                != username,
    decreases users.len() - from,
{
    if from < users.len() && users[from].username@ != username {
        lemma_index_of_username(users, username, from + 1);
    }
}

/// Whether `after` is `before` once it is in the group at `path`: the same
/// identity, with `path` at the end of its groups unless it was among them.
pub open spec fn in_group_after(before: User, after: User, path: Seq<char>) -> bool {
    &&& after.username == before.username
    &&& after.gitlab_id == before.gitlab_id
    &&& before.lists_group(path) ==> after.groups@ == before.groups@
    &&& !before.lists_group(path) ==> after.groups@.len() == before.groups@.len() + 1
        && after.groups@.drop_last() == before.groups@ && after.groups@.last()@ == path
}

/// Whether `after` is `before` once the membership of `username` in the
/// group at `path` is recorded. An identity that is known is put into the
/// group; one that is not is listed last, with that group alone.
pub open spec fn recorded(before: Seq<User>, after: Seq<User>, username: Seq<char>, path: Seq<char>) -> bool {
    let at = index_of_username(before, username, 0);
    if at < before.len() {
        &&& after.len() == before.len()
        &&& in_group_after(before[at], after[at], path)
        &&& forall|k: int| 0 <= k < before.len() && k != at ==> after[k] == before[k]
    } else {
        &&& after.len() == before.len() + 1
        &&& after.drop_last() == before
        &&& after.last().username@ == username
        &&& after.last().gitlab_id is None
        &&& after.last().groups@.len() == 1
        &&& after.last().groups@[0]@ == path
    }
}

impl State {
    /// Records that the identity `username` is in the group at `path`.
    pub fn record_membership(&mut self, username: &str, path: &str)
        ensures
            old(self).well_formed() ==> final(self).well_formed(),
            recorded(old(self).users@, final(self).users@, username@, path@),
    {
        let mut i: usize = 0;
        while i < self.users.len() && !same_str(self.users[i].username.as_str(), username)
            invariant
                i <= self.users.len(),
                self.users@ == old(self).users@,
                index_of_username(self.users@, username@, 0) == index_of_username(
                    self.users@,
                    username@,
                    i as int,
                ),
            decreases self.users.len() - i,
        {
            i += 1;
        }
        proof {
            lemma_index_of_username(self.users@, username@, 0);
        }
        let ghost before = self.users@;
        if i < self.users.len() {
            let mut user = self.users.remove(i);
            user.join_group(path);
            self.users.insert(i, user);
            assert forall|k: int| 0 <= k < before.len() && k != i implies #[trigger] self.users@[k]
                == before[k] by {}
        } else {
            let mut user = User::new(String::from_str(username));
            user.groups.push(String::from_str(path));
            self.users.push(user);
            assert(self.users@.drop_last() =~= before);
        }
    }
}

} // verus!
