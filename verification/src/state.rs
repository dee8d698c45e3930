//! The identities of the directory, the roles they hold, and the queries that
//! give the members of a role.

use vstd::prelude::*;
use vstd::string::*;
use crate::text::{chars_of, starts_with, string_of};
use crate::text::search::append;

verus! {

broadcast use vstd::string::group_string_axioms;

/// The tiers of package maintainers, from the most to the least trusted.
#[derive(Debug, Clone, Copy, PartialEq, Eq, Structural)]
pub enum PackageMaintainerRole {
    Core,
    JuniorCore,
    Regular,
    Junior,
}

/// A character of a path segment: a space becomes a hyphen, an upper case
/// ASCII letter its lower case form, anything else stays.
pub open spec fn path_char(c: char) -> char {
    if c == ' ' {
        '-'
    } else if 'A' <= c <= 'Z' {
        ((c as u8) + 32) as char
    } else {
        c
    }
}

fn to_path_char(c: char) -> (mapped: char)
    ensures
        mapped == path_char(c),
{
    if c == ' ' {
        '-'
    } else if 'A' <= c && c <= 'Z' {
        ((c as u8) + 32) as char
    } else {
        c
    }
}

impl PackageMaintainerRole {
    /// The name of the tier's group in the directory.
    pub open spec fn title(self) -> Seq<char> {
        match self {
            Self::Core => "Core Package Maintainers"@,
            Self::JuniorCore => "Junior Core Package Maintainers"@,
            Self::Regular => "Package Maintainers"@,
            Self::Junior => "Junior Package Maintainers"@,
        }
    }

    /// The path segment of the tier's group on the platform.
    pub open spec fn path(self) -> Seq<char> {
        self.title().map_values(|c: char| path_char(c))
    }

    /// The name of the tier's group in the directory.
    pub fn as_str(self) -> (name: &'static str)
        ensures
            name@ == self.title(),
    {
        match self {
            Self::Core => "Core Package Maintainers",
            Self::JuniorCore => "Junior Core Package Maintainers",
            Self::Regular => "Package Maintainers",
            Self::Junior => "Junior Package Maintainers",
        }
    }

    /// The path segment of the tier's group on the platform: the name in lower
    /// case, with hyphens for spaces.
    pub fn to_path(self) -> (segment: String)
        ensures
            segment@ == self.path(),
    {
        let title = chars_of(self.as_str());
        let mut segment: Vec<char> = Vec::new();
        let mut i: usize = 0;
        while i < title.len()
            invariant
                i <= title.len(),
                segment@ == title@.take(i as int).map_values(|c: char| path_char(c)),
            decreases title.len() - i,
        {
            segment.push(to_path_char(title[i]));
            i += 1;
        }
        string_of(&segment)
    }
}

/// No two tiers have the same group: their names differ, and so do their
/// path segments.
pub proof fn lemma_tiers_differ(one: PackageMaintainerRole, other: PackageMaintainerRole)
    requires
        one != other,
    ensures
        one.title() != other.title(),
        one.path() != other.path(),
{
    reveal_strlit("Core Package Maintainers");
    reveal_strlit("Junior Core Package Maintainers");
    reveal_strlit("Package Maintainers");
    reveal_strlit("Junior Package Maintainers");
    assert(one.path().len() == one.title().len());
}

/// A category of trust, read off the directory groups of an identity.
#[derive(Debug, Clone, Copy, PartialEq, Eq, Structural)]
pub enum Role {
    Staff,
    ExternalContributor,
    /// Staff, or an external contributor.
    StaffOrExternalContributor,
    DevOps,
    /// A package maintainer of any tier.
    PackageMaintainer,
    /// A package maintainer of the given tier.
    PackageMaintainerOf(PackageMaintainerRole),
    BugWrangler,
}

/// An identity of the directory.
#[derive(Debug, PartialEq, Eq)]
pub struct User {
    pub username: String,
    /// The identity's number on the platform, once it is known.
    pub gitlab_id: Option<u64>,
    /// The paths of the directory groups that the identity is in.
    pub groups: Vec<String>,
}

impl User {
    /// Whether one of the identity's groups has a path that begins with
    /// `prefix`.
    pub open spec fn in_group_under(&self, prefix: Seq<char>) -> bool {
        exists|i: int|
            0 <= i < self.groups@.len() && prefix.is_prefix_of(#[trigger] self.groups@[i]@)
    }

    /// Whether the identity holds `role`.
    pub open spec fn holds(&self, role: Role) -> bool {
        match role {
            Role::Staff => self.in_group_under("/Arch Linux Staff/"@),
            Role::ExternalContributor => self.in_group_under("/External Contributors"@),
            Role::StaffOrExternalContributor => self.in_group_under("/Arch Linux Staff/"@)
                || self.in_group_under("/External Contributors"@),
            Role::DevOps => self.in_group_under("/Arch Linux Staff/DevOps"@),
            Role::PackageMaintainer => self.in_group_under(
                "/Arch Linux Staff/Package Maintainer Team/"@,
            ),
            Role::PackageMaintainerOf(tier) => self.in_group_under(
                "/Arch Linux Staff/Package Maintainer Team/"@ + tier.title(),
            ),
            Role::BugWrangler => self.in_group_under("/Arch Linux Staff/Bug Wranglers"@),
        }
    }

    /// Whether no group path is listed twice.
    pub open spec fn well_formed(&self) -> bool {
        forall|i: int, j: int|
            0 <= i < j < self.groups@.len() ==> self.groups@[i]@ != self.groups@[j]@
    }

    /// An identity named `username`, in no group and without platform number.
    pub fn new(username: String) -> (user: User)
        ensures
            user.username == username,
            user.gitlab_id is None,
            user.groups@.len() == 0,
            user.well_formed(),
    {
        User { username, gitlab_id: None, groups: Vec::new() }
    }

    fn any_group_under(&self, prefix: &Vec<char>) -> (found: bool)
        ensures
            found == self.in_group_under(prefix@),
    {
        let mut i: usize = 0;
        while i < self.groups.len()
            invariant
                i <= self.groups.len(),
                forall|k: int| 0 <= k < i ==> !prefix@.is_prefix_of(#[trigger] self.groups@[k]@),
            decreases self.groups.len() - i,
        {
            let path = chars_of(self.groups[i].as_str());
            if starts_with(&path, prefix) {
                return true;
            }
            i += 1;
        }
        false
    }

    /// Whether the identity is staff: in a group below `/Arch Linux Staff/`.
    pub fn is_staff(&self) -> (held: bool)
        ensures
            held == self.holds(Role::Staff),
    {
        self.any_group_under(&chars_of("/Arch Linux Staff/"))
    }

    /// Whether the identity is an external contributor.
    pub fn is_external_contributor(&self) -> (held: bool)
        ensures
            held == self.holds(Role::ExternalContributor),
    {
        self.any_group_under(&chars_of("/External Contributors"))
    }

    /// Whether the identity is one of the DevOps.
    pub fn is_devops(&self) -> (held: bool)
        ensures
            held == self.holds(Role::DevOps),
    {
        self.any_group_under(&chars_of("/Arch Linux Staff/DevOps"))
    }

    /// Whether the identity is a package maintainer of any tier.
    pub fn is_package_maintainer(&self) -> (held: bool)
        ensures
            held == self.holds(Role::PackageMaintainer),
    {
        self.any_group_under(&chars_of("/Arch Linux Staff/Package Maintainer Team/"))
    }

    /// Whether the identity is a bug wrangler.
    pub fn is_bug_wrangler(&self) -> (held: bool)
        ensures
            held == self.holds(Role::BugWrangler),
    {
        self.any_group_under(&chars_of("/Arch Linux Staff/Bug Wranglers"))
    }

    /// Whether the identity is a package maintainer of the tier `role`.
    pub fn has_package_maintainer_role(&self, role: PackageMaintainerRole) -> (held: bool)
        ensures
            held == self.holds(Role::PackageMaintainerOf(role)),
    {
        let mut expected = chars_of("/Arch Linux Staff/Package Maintainer Team/");
        append(&mut expected, &chars_of(role.as_str()));
        self.any_group_under(&expected)
    }

    /// Whether the identity holds `role`.
    pub fn has_role(&self, role: Role) -> (held: bool)
        ensures
            held == self.holds(role),
    {
        match role {
            Role::Staff => self.is_staff(),
            Role::ExternalContributor => self.is_external_contributor(),
            Role::StaffOrExternalContributor => self.is_staff() || self.is_external_contributor(),
            Role::DevOps => self.is_devops(),
            Role::PackageMaintainer => self.is_package_maintainer(),
            Role::PackageMaintainerOf(tier) => self.has_package_maintainer_role(tier),
            Role::BugWrangler => self.is_bug_wrangler(),
        }
    }

    /// Whether `path` is among the identity's groups.
    pub open spec fn lists_group(&self, path: Seq<char>) -> bool {
        exists|i: int| 0 <= i < self.groups@.len() && (#[trigger] self.groups@[i])@ == path
    }

    /// Whether `path` is among the identity's groups.
    pub fn in_group(&self, path: &str) -> (found: bool)
        ensures
            found == self.lists_group(path@),
    {
        let mut i: usize = 0;
        while i < self.groups.len()
            invariant
                i <= self.groups.len(),
                forall|k: int| 0 <= k < i ==> (#[trigger] self.groups@[k])@ != path@,
            decreases self.groups.len() - i,
        {
            if crate::text::same_str(self.groups[i].as_str(), path) {
                return true;
            }
            i += 1;
        }
        false
    }

    /// Puts the identity into the group at `path`, unless it is in it.
    pub fn join_group(&mut self, path: &str)
        ensures
            old(self).well_formed() ==> final(self).well_formed(),
            final(self).username == old(self).username,
            final(self).gitlab_id == old(self).gitlab_id,
            old(self).lists_group(path@) ==> final(self).groups@ == old(self).groups@,
            !old(self).lists_group(path@) ==> final(self).groups@.len() == old(self).groups@.len()
                + 1 && final(self).groups@.drop_last() == old(self).groups@
                && final(self).groups@.last()@ == path@,
    {
        if !self.in_group(path) {
            self.groups.push(String::from_str(path));
        }
    }
}

/// A text that begins with `longer` begins with `shorter`, where `longer`
/// begins with `shorter`.
pub proof fn lemma_prefix_of_prefix(shorter: Seq<char>, longer: Seq<char>, text: Seq<char>)
    requires
        shorter.is_prefix_of(longer),
        longer.is_prefix_of(text),
    ensures
        shorter.is_prefix_of(text),
{
}

/// The DevOps, the package maintainers of every tier and the bug wranglers
/// are staff; a package maintainer of a tier is a package maintainer; staff
/// and external contributors are what the role of both says.
pub proof fn lemma_roles_within_roles(user: User, tier: PackageMaintainerRole)
    ensures
        user.holds(Role::DevOps) ==> user.holds(Role::Staff),
        user.holds(Role::BugWrangler) ==> user.holds(Role::Staff),
        user.holds(Role::PackageMaintainer) ==> user.holds(Role::Staff),
        user.holds(Role::PackageMaintainerOf(tier)) ==> user.holds(Role::PackageMaintainer),
        user.holds(Role::StaffOrExternalContributor) <==> user.holds(Role::Staff) || user.holds(
            Role::ExternalContributor,
        ),
{
    let staff = "/Arch Linux Staff/"@;
    let team = "/Arch Linux Staff/Package Maintainer Team/"@;
    reveal_strlit("/Arch Linux Staff/");
    reveal_strlit("/Arch Linux Staff/DevOps");
    reveal_strlit("/Arch Linux Staff/Bug Wranglers");
    reveal_strlit("/Arch Linux Staff/Package Maintainer Team/");
    assert forall|i: int| 0 <= i < user.groups@.len() implies ("/Arch Linux Staff/DevOps"@.is_prefix_of(
        #[trigger] user.groups@[i]@,
    ) ==> staff.is_prefix_of(user.groups@[i]@)) && ("/Arch Linux Staff/Bug Wranglers"@.is_prefix_of(
        user.groups@[i]@,
    ) ==> staff.is_prefix_of(user.groups@[i]@)) && (team.is_prefix_of(user.groups@[i]@)
        ==> staff.is_prefix_of(user.groups@[i]@)) && ((team + tier.title()).is_prefix_of(
        user.groups@[i]@,
    ) ==> team.is_prefix_of(user.groups@[i]@)) by {
        let path = user.groups@[i]@;
        if "/Arch Linux Staff/DevOps"@.is_prefix_of(path) {
            lemma_prefix_of_prefix(staff, "/Arch Linux Staff/DevOps"@, path);
        }
        if "/Arch Linux Staff/Bug Wranglers"@.is_prefix_of(path) {
            lemma_prefix_of_prefix(staff, "/Arch Linux Staff/Bug Wranglers"@, path);
        }
        if team.is_prefix_of(path) {
            lemma_prefix_of_prefix(staff, team, path);
        }
        if (team + tier.title()).is_prefix_of(path) {
            lemma_prefix_of_prefix(team, team + tier.title(), path);
        }
    }
}

/// The identities behind a list of references.
pub open spec fn users_of(found: Seq<&User>) -> Seq<User> {
    found.map_values(|user: &User| *user)
}

/// The identity behind a reference that may be absent.
pub open spec fn identity_of(found: Option<&User>) -> Option<User> {
    match found {
        Some(user) => Some(*user),
        None => None,
    }
}

/// The index of the first of `users` at or after `from` whose platform
/// number is `gitlab_id`, or the length of `users` where there is none.
pub open spec fn index_of_gitlab_id(users: Seq<User>, gitlab_id: u64, from: int) -> int
    decreases users.len() - from,
{
    if from < 0 || from >= users.len() {
        users.len() as int
    } else if users[from].gitlab_id == Some(gitlab_id) {
        from
    } else {
        index_of_gitlab_id(users, gitlab_id, from + 1)
    }
}

/// The first of `users` whose platform number is `gitlab_id`.
pub open spec fn first_with_gitlab_id(users: Seq<User>, gitlab_id: u64) -> Option<User> {
    let at = index_of_gitlab_id(users, gitlab_id, 0);
    if 0 <= at < users.len() {
        Some(users[at])
    } else {
        None
    }
}

/// The index found is at or after `from`, holds the number where it is
/// within `users`, and no identity between `from` and it holds the number.
pub proof fn lemma_index_of_gitlab_id(users: Seq<User>, gitlab_id: u64, from: int)
    requires
        0 <= from <= users.len(),
    ensures
        from <= index_of_gitlab_id(users, gitlab_id, from) <= users.len(),
        index_of_gitlab_id(users, gitlab_id, from) < users.len() ==> users[index_of_gitlab_id(
            users,
            gitlab_id,
            from,
        )].gitlab_id == Some(gitlab_id),
        forall|k: int|
            from <= k < index_of_gitlab_id(users, gitlab_id, from) ==> (#[trigger] users[k]).gitlab_id
                != Some(gitlab_id),
    decreases users.len() - from,
{
    if from < users.len() && users[from].gitlab_id != Some(gitlab_id) {
        lemma_index_of_gitlab_id(users, gitlab_id, from + 1);
    }
}

/// The first of `users` whose platform number is `gitlab_id`.
pub fn find_gitlab_id<'a>(users: &Vec<&'a User>, gitlab_id: u64) -> (found: Option<&'a User>)
    ensures
        identity_of(found) == first_with_gitlab_id(users_of(users@), gitlab_id),
{
    let mut i: usize = 0;
    while i < users.len()
        invariant
            i <= users.len(),
            index_of_gitlab_id(users_of(users@), gitlab_id, 0) == index_of_gitlab_id(
                users_of(users@),
                gitlab_id,
                i as int,
            ),
        decreases users.len() - i,
    {
        let user: &'a User = users[i];
        match user.gitlab_id {
            Some(id) => {
                if id == gitlab_id {
                    return Some(user);
                }
            },
            None => {},
        }
        i += 1;
    }
    None
}

/// What is known of the directory: its identities, each listed once.
pub struct State {
    pub users: Vec<User>,
}

impl Default for State {
    fn default() -> (state: State)
        ensures
            state.users@.len() == 0,
            state.well_formed(),
    {
        State { users: Vec::new() }
    }
}

impl State {
    /// Whether every identity is well formed and no username is listed twice.
    pub open spec fn well_formed(&self) -> bool {
        &&& forall|i: int| 0 <= i < self.users@.len() ==> (#[trigger] self.users@[i]).well_formed()
        &&& forall|i: int, j: int|
            0 <= i < j < self.users@.len() ==> self.users@[i].username@ != self.users@[j].username@
    }

    /// The identities that hold `role`, in the order in which they are listed.
    pub open spec fn role_set(&self, role: Role) -> Seq<User> {
        self.users@.filter(|user: User| user.holds(role))
    }

    /// The identities that hold `role`.
    pub fn members_of(&self, role: Role) -> (found: Vec<&User>)
        ensures
            users_of(found@) == self.role_set(role),
    {
        let mut found: Vec<&User> = Vec::new();
        let mut i: usize = 0;
        proof {
            reveal(Seq::filter);
        }
        while i < self.users.len()
            invariant
                i <= self.users.len(),
                users_of(found@) == self.users@.take(i as int).filter(|user: User| user.holds(role)),
            decreases self.users.len() - i,
        {
            if self.users[i].has_role(role) {
                found.push(&self.users[i]);
            }
            i += 1;
            proof {
                reveal(Seq::filter);
                assert(self.users@.take(i as int).drop_last() =~= self.users@.take(i - 1));
            }
        }
        assert(self.users@.take(self.users@.len() as int) =~= self.users@);
        found
    }

    /// The identities that are staff.
    pub fn staff(&self) -> (found: Vec<&User>)
        ensures
            users_of(found@) == self.role_set(Role::Staff),
    {
        self.members_of(Role::Staff)
    }

    /// The identities that are staff or external contributors.
    pub fn staff_with_externals(&self) -> (found: Vec<&User>)
        ensures
            users_of(found@) == self.role_set(Role::StaffOrExternalContributor),
    {
        self.members_of(Role::StaffOrExternalContributor)
    }

    /// The identities that are DevOps.
    pub fn devops(&self) -> (found: Vec<&User>)
        ensures
            users_of(found@) == self.role_set(Role::DevOps),
    {
        self.members_of(Role::DevOps)
    }

    /// The identities that are package maintainers of any tier.
    pub fn package_maintainers(&self) -> (found: Vec<&User>)
        ensures
            users_of(found@) == self.role_set(Role::PackageMaintainer),
    {
        self.members_of(Role::PackageMaintainer)
    }

    /// The identities that are package maintainers of the tier `role`.
    pub fn package_maintainers_by_role(&self, role: PackageMaintainerRole) -> (found: Vec<&User>)
        ensures
            users_of(found@) == self.role_set(Role::PackageMaintainerOf(role)),
    {
        self.members_of(Role::PackageMaintainerOf(role))
    }

    /// The identities that are bug wranglers.
    pub fn bug_wranglers(&self) -> (found: Vec<&User>)
        ensures
            users_of(found@) == self.role_set(Role::BugWrangler),
    {
        self.members_of(Role::BugWrangler)
    }

    /// The first identity that holds `role` and has the platform number
    /// `gitlab_id`.
    pub fn member_from_gitlab_id(&self, role: Role, gitlab_id: u64) -> (found: Option<&User>)
        ensures
            identity_of(found) == first_with_gitlab_id(self.role_set(role), gitlab_id),
    {
        let members = self.members_of(role);
        find_gitlab_id(&members, gitlab_id)
    }

    /// The first identity with the platform number `gitlab_id`.
    pub fn user_from_gitlab_id(&self, gitlab_id: u64) -> (found: Option<&User>)
        ensures
            identity_of(found) == first_with_gitlab_id(self.users@, gitlab_id),
    {
        let mut i: usize = 0;
        while i < self.users.len()
            invariant
                i <= self.users.len(),
                index_of_gitlab_id(self.users@, gitlab_id, 0) == index_of_gitlab_id(
                    self.users@,
                    gitlab_id,
                    i as int,
                ),
            decreases self.users.len() - i,
        {
            match self.users[i].gitlab_id {
                Some(id) => {
                    if id == gitlab_id {
                        return Some(&self.users[i]);
                    }
                },
                None => {},
            }
            i += 1;
        }
        None
    }

    /// The first of the staff with the platform number `gitlab_id`.
    pub fn staff_from_gitlab_id(&self, gitlab_id: u64) -> (found: Option<&User>)
        ensures
            identity_of(found) == first_with_gitlab_id(self.role_set(Role::Staff), gitlab_id),
    {
        self.member_from_gitlab_id(Role::Staff, gitlab_id)
    }

    /// The first of the staff and external contributors with the platform
    /// number `gitlab_id`.
    pub fn staff_with_externals_from_gitlab_id(&self, gitlab_id: u64) -> (found: Option<&User>)
        ensures
            identity_of(found) == first_with_gitlab_id(
                self.role_set(Role::StaffOrExternalContributor),
                gitlab_id,
            ),
    {
        self.member_from_gitlab_id(Role::StaffOrExternalContributor, gitlab_id)
    }

    /// The first of the DevOps with the platform number `gitlab_id`.
    pub fn devops_from_gitlab_id(&self, gitlab_id: u64) -> (found: Option<&User>)
        ensures
            identity_of(found) == first_with_gitlab_id(self.role_set(Role::DevOps), gitlab_id),
    {
        self.member_from_gitlab_id(Role::DevOps, gitlab_id)
    }

    /// The first of the package maintainers with the platform number
    /// `gitlab_id`.
    pub fn package_maintainer_from_gitlab_id(&self, gitlab_id: u64) -> (found: Option<&User>)
        ensures
            identity_of(found) == first_with_gitlab_id(self.role_set(Role::PackageMaintainer), gitlab_id),
    {
        self.member_from_gitlab_id(Role::PackageMaintainer, gitlab_id)
    }

    /// The first of the package maintainers of the tier `role` with the
    /// platform number `gitlab_id`.
    pub fn package_maintainer_from_gitlab_id_and_role(
        &self,
        gitlab_id: u64,
        role: PackageMaintainerRole,
    ) -> (found: Option<&User>)
        ensures
            identity_of(found) == first_with_gitlab_id(self.role_set(Role::PackageMaintainerOf(role)), gitlab_id),
    {
        self.member_from_gitlab_id(Role::PackageMaintainerOf(role), gitlab_id)
    }

    /// The first of the bug wranglers with the platform number `gitlab_id`.
    pub fn bug_wrangler_from_gitlab_id(&self, gitlab_id: u64) -> (found: Option<&User>)
        ensures
            identity_of(found) == first_with_gitlab_id(self.role_set(Role::BugWrangler), gitlab_id),
    {
        self.member_from_gitlab_id(Role::BugWrangler, gitlab_id)
    }
}

} // verus!
