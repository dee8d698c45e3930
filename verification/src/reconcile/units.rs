//! The units of a run: the teams whose groups follow the directory, and what
//! is held against every group and project of the hierarchy.

use vstd::prelude::*;
use vstd::string::*;
use crate::reconcile::change::{ChangeView, Scope};
use crate::reconcile::executor::{at_most_one, single, UnitPlan};
use crate::reconcile::members::{
    list_text, member_changes, reconcile_members, AccessRule, MemberPolicy,
};
use crate::reconcile::protection::{
    find_protected_tag, protect_tag, tag_correction, tag_index,
};
use crate::reconcile::settings::{
    apply_group_settings, apply_package_project_settings, apply_project_settings,
    generic_profile, group_correction, is_packaging_project, packaging, packaging_profile,
    settings_correction,
};
use crate::state::{PackageMaintainerRole, Role, State, User};
use crate::types::{
    memberships, AccessLevel, GitLabMember, Group, GroupProjects, Membership,
    MyProtectedAccessLevel, ProtectedTag,
};

verus! {

broadcast use vstd::string::group_string_axioms;

/// A team whose group on the platform has the members that the directory
/// gives it.
#[derive(Debug, Clone, Copy, PartialEq, Eq, Structural)]
pub enum Team {
    /// Everybody: the root group.
    ArchLinux,
    Staff,
    DevOps,
    PackageMaintainers(PackageMaintainerRole),
    BugWranglers,
}

impl Team {
    /// The path of the team's group.
    pub open spec fn group_path(self) -> Seq<char> {
        match self {
            Team::ArchLinux => "archlinux"@,
            Team::Staff => "archlinux/teams/staff"@,
            Team::DevOps => "archlinux/teams/devops"@,
            Team::PackageMaintainers(tier) => "archlinux/teams/package-maintainer-team/"@
                + tier.path(),
            Team::BugWranglers => "archlinux/teams/bug-wranglers"@,
        }
    }

    /// The name under which the team's members are reported.
    pub open spec fn label(self) -> Seq<char> {
        match self {
            Team::ArchLinux => "GitLab 'Arch Linux' group members"@,
            Team::Staff => "GitLab 'Arch Linux/Teams/Staff' group members"@,
            Team::DevOps => "GitLab 'Arch Linux/Teams/DevOps' group members"@,
            Team::PackageMaintainers(tier) => "GitLab 'Arch Linux/Teams/Package Maintainer Team/"@
                + tier.title() + "' group members"@,
            Team::BugWranglers => "GitLab 'Arch Linux/Teams/Bug Wranglers' group members"@,
        }
    }

    /// The role whose identities are the team.
    pub open spec fn role(self) -> Role {
        match self {
            Team::ArchLinux => Role::Staff,
            Team::Staff => Role::Staff,
            Team::DevOps => Role::DevOps,
            Team::PackageMaintainers(tier) => Role::PackageMaintainerOf(tier),
            Team::BugWranglers => Role::BugWrangler,
        }
    }

    /// What the members of the team's group should be: every identity of
    /// the role, with exactly the level of the team.
    pub open spec fn policy(self) -> MemberPolicy {
        MemberPolicy {
            scope: Scope::Group,
            access_level: match self {
                Team::ArchLinux => AccessLevel::Minimal,
                Team::Staff => AccessLevel::Reporter,
                Team::DevOps => AccessLevel::Developer,
                Team::PackageMaintainers(tier) => AccessLevel::Developer,
                Team::BugWranglers => AccessLevel::Reporter,
            },
            rule: AccessRule::Exact,
            add_missing: true,
        }
    }

    /// The path of the team's group.
    pub fn path(self) -> (path: String)
        ensures
            path@ == self.group_path(),
    {
        match self {
            Team::ArchLinux => String::from_str("archlinux"),
            Team::Staff => String::from_str("archlinux/teams/staff"),
            Team::DevOps => String::from_str("archlinux/teams/devops"),
            Team::PackageMaintainers(tier) => {
                let mut path = String::from_str("archlinux/teams/package-maintainer-team/");
                path.append(tier.to_path().as_str());
                path
            },
            Team::BugWranglers => String::from_str("archlinux/teams/bug-wranglers"),
        }
    }

    /// The name under which the team's members are reported.
    pub fn summary_label(self) -> (label: String)
        ensures
            label@ == self.label(),
    {
        match self {
            Team::ArchLinux => String::from_str("GitLab 'Arch Linux' group members"),
            Team::Staff => String::from_str("GitLab 'Arch Linux/Teams/Staff' group members"),
            Team::DevOps => String::from_str("GitLab 'Arch Linux/Teams/DevOps' group members"),
            Team::PackageMaintainers(tier) => {
                let mut label = String::from_str(
                    "GitLab 'Arch Linux/Teams/Package Maintainer Team/",
                );
                label.append(tier.as_str());
                label.append("' group members");
                label
            },
            Team::BugWranglers => String::from_str(
                "GitLab 'Arch Linux/Teams/Bug Wranglers' group members",
            ),
        }
    }

    /// The role whose identities are the team.
    pub fn member_role(self) -> (role: Role)
        ensures
            role == self.role(),
    {
        match self {
            Team::ArchLinux => Role::Staff,
            Team::Staff => Role::Staff,
            Team::DevOps => Role::DevOps,
            Team::PackageMaintainers(tier) => Role::PackageMaintainerOf(tier),
            Team::BugWranglers => Role::BugWrangler,
        }
    }

    /// What the members of the team's group should be.
    pub fn member_policy(self) -> (policy: MemberPolicy)
        ensures
            policy == self.policy(),
    {
        MemberPolicy {
            scope: Scope::Group,
            access_level: match self {
                Team::ArchLinux => AccessLevel::Minimal,
                Team::Staff => AccessLevel::Reporter,
                Team::DevOps => AccessLevel::Developer,
                Team::PackageMaintainers(_) => AccessLevel::Developer,
                Team::BugWranglers => AccessLevel::Reporter,
            },
            rule: AccessRule::Exact,
            add_missing: true,
        }
    }
}

/// The teams, in the order in which a run takes them.
pub open spec fn all_teams() -> Seq<Team> {
    seq![
        Team::ArchLinux,
        Team::Staff,
        Team::DevOps,
        Team::PackageMaintainers(PackageMaintainerRole::Core),
        Team::PackageMaintainers(PackageMaintainerRole::JuniorCore),
        Team::PackageMaintainers(PackageMaintainerRole::Regular),
        Team::PackageMaintainers(PackageMaintainerRole::Junior),
        Team::BugWranglers,
    ]
}

/// The teams, in the order in which a run takes them.
pub fn teams() -> (all: Vec<Team>)
    ensures
        all@ == all_teams(),
{
    let mut all: Vec<Team> = Vec::new();
    all.push(Team::ArchLinux);
    all.push(Team::Staff);
    all.push(Team::DevOps);
    all.push(Team::PackageMaintainers(PackageMaintainerRole::Core));
    all.push(Team::PackageMaintainers(PackageMaintainerRole::JuniorCore));
    all.push(Team::PackageMaintainers(PackageMaintainerRole::Regular));
    all.push(Team::PackageMaintainers(PackageMaintainerRole::Junior));
    all.push(Team::BugWranglers);
    all
}

/// The corrections of a team's group, whose members are `members`.
pub open spec fn team_changes(
    team: Team,
    state: State,
    members: Seq<Membership>,
    bot_users: Option<Seq<char>>,
) -> Seq<ChangeView> {
    member_changes(team.group_path(), team.policy(), members, state.role_set(team.role()), bot_users)
}

/// The plan for the members of a team's group.
pub fn update_team_members(
    team: Team,
    state: &State,
    members: &Vec<GitLabMember>,
    bot_users: Option<&str>,
) -> (plan: UnitPlan)
    ensures
        plan.is_plan_of(team.label(), team_changes(team, *state, memberships(members@), list_text(bot_users))),
{
    let desired = state.members_of(team.member_role());
    let changes = reconcile_members(
        team.path().as_str(),
        team.member_policy(),
        members,
        &desired,
        bot_users,
    );
    UnitPlan::new(team.summary_label().as_str(), changes)
}

/// The plan for the members of the root group: all staff, with minimal access.
pub fn update_archlinux_group_members(
    state: &State,
    members: &Vec<GitLabMember>,
    bot_users: Option<&str>,
) -> (plan: UnitPlan)
    ensures
        plan.is_plan_of(
            Team::ArchLinux.label(),
            team_changes(Team::ArchLinux, *state, memberships(members@), list_text(bot_users)),
        ),
{
    update_team_members(Team::ArchLinux, state, members, bot_users)
}

/// The plan for the members of the staff group: all staff, as reporters.
pub fn update_staff_group_members(
    state: &State,
    members: &Vec<GitLabMember>,
    bot_users: Option<&str>,
) -> (plan: UnitPlan)
    ensures
        plan.is_plan_of(
            Team::Staff.label(),
            team_changes(Team::Staff, *state, memberships(members@), list_text(bot_users)),
        ),
{
    update_team_members(Team::Staff, state, members, bot_users)
}

/// The plan for the members of the DevOps group: the DevOps, as developers.
pub fn update_devops_group_members(
    state: &State,
    members: &Vec<GitLabMember>,
    bot_users: Option<&str>,
) -> (plan: UnitPlan)
    ensures
        plan.is_plan_of(
            Team::DevOps.label(),
            team_changes(Team::DevOps, *state, memberships(members@), list_text(bot_users)),
        ),
{
    update_team_members(Team::DevOps, state, members, bot_users)
}

/// The plan for the members of the group of the package maintainers of the
/// tier `role`: those maintainers, as developers.
pub fn update_package_maintainer_group_members(
    role: PackageMaintainerRole,
    state: &State,
    members: &Vec<GitLabMember>,
    bot_users: Option<&str>,
) -> (plan: UnitPlan)
    ensures
        plan.is_plan_of(
            Team::PackageMaintainers(role).label(),
            team_changes(Team::PackageMaintainers(role), *state, memberships(members@), list_text(bot_users)),
        ),
{
    update_team_members(Team::PackageMaintainers(role), state, members, bot_users)
}

/// The plan for the members of the group of the bug wranglers: the bug
/// wranglers, as reporters.
pub fn update_bug_wranglers_group_members(
    state: &State,
    members: &Vec<GitLabMember>,
    bot_users: Option<&str>,
) -> (plan: UnitPlan)
    ensures
        plan.is_plan_of(
            Team::BugWranglers.label(),
            team_changes(Team::BugWranglers, *state, memberships(members@), list_text(bot_users)),
        ),
{
    update_team_members(Team::BugWranglers, state, members, bot_users)
}

/// What holds of the members of every group and project of the hierarchy:
/// a member is an identity of the role, and has at most developer access.
/// Nobody is added.
pub open spec fn ceiling_policy(scope: Scope) -> MemberPolicy {
    MemberPolicy {
        scope,
        access_level: AccessLevel::Developer,
        rule: AccessRule::AtMost,
        add_missing: false,
    }
}

/// A name between quotes, behind `GitLab` and before what is reported of it.
pub open spec fn unit_label(name: Seq<char>, subject: Seq<char>) -> Seq<char> {
    "GitLab '"@ + name + "' "@ + subject
}

fn label_of(name: &str, subject: &str) -> (label: String)
    ensures
        label@ == unit_label(name@, subject@),
{
    let mut label = String::from_str("GitLab '");
    label.append(name);
    label.append("' ");
    label.append(subject);
    label
}

/// The plan for the members of a group of the hierarchy: staff stay, with at
/// most developer access, and everybody else leaves.
pub fn update_group_members(
    group: &Group,
    state: &State,
    members: &Vec<GitLabMember>,
    bot_users: Option<&str>,
) -> (plan: UnitPlan)
    ensures
        plan.is_plan_of(
            unit_label(group.full_name@, "group members"@),
            member_changes(
                group.full_path@,
                ceiling_policy(Scope::Group),
                memberships(members@),
                state.role_set(Role::Staff),
                list_text(bot_users),
            ),
        ),
{
    let desired = state.staff();
    let policy = MemberPolicy {
        scope: Scope::Group,
        access_level: AccessLevel::Developer,
        rule: AccessRule::AtMost,
        add_missing: false,
    };
    let changes = reconcile_members(group.full_path.as_str(), policy, members, &desired, bot_users);
    UnitPlan::new(label_of(group.full_name.as_str(), "group members").as_str(), changes)
}

/// The plan for the settings of a group of the hierarchy.
pub fn update_group_settings(group: &Group) -> (plan: UnitPlan)
    ensures
        plan.is_plan_of(
            unit_label(group.full_path@, "group settings"@),
            at_most_one(group_correction(*group)),
        ),
{
    let changes = single(apply_group_settings(group));
    UnitPlan::new(label_of(group.full_path.as_str(), "group settings").as_str(), changes)
}

/// The plan for the members of a project of the hierarchy: staff and
/// external contributors stay, with at most developer access, and everybody
/// else leaves.
pub fn update_project_members(
    project: &GroupProjects,
    state: &State,
    members: &Vec<GitLabMember>,
    bot_users: Option<&str>,
) -> (plan: UnitPlan)
    ensures
        plan.is_plan_of(
            unit_label(project.name_with_namespace@, "project members"@),
            member_changes(
                project.path_with_namespace@,
                ceiling_policy(Scope::Project),
                memberships(members@),
                state.role_set(Role::StaffOrExternalContributor),
                list_text(bot_users),
            ),
        ),
{
    let desired = state.staff_with_externals();
    let policy = MemberPolicy {
        scope: Scope::Project,
        access_level: AccessLevel::Developer,
        rule: AccessRule::AtMost,
        add_missing: false,
    };
    let changes = reconcile_members(
        project.path_with_namespace.as_str(),
        policy,
        members,
        &desired,
        bot_users,
    );
    UnitPlan::new(label_of(project.name_with_namespace.as_str(), "project members").as_str(), changes)
}

/// The correction of the settings of a project, given its description as it
/// should be: that of a packaging project where it is one, and that of any
/// project where it is not.
pub open spec fn project_correction(
    project: GroupProjects,
    description: Seq<char>,
) -> Option<ChangeView> {
    if packaging(project) {
        settings_correction(project, packaging_profile(description))
    } else {
        settings_correction(project, generic_profile())
    }
}

/// The plan for the settings of a project of the hierarchy. The description
/// `expected_description` is held against a packaging project only.
pub fn update_project_settings(project: &GroupProjects, expected_description: &str) -> (plan: UnitPlan)
    ensures
        plan.is_plan_of(
            unit_label(project.name_with_namespace@, "project settings"@),
            at_most_one(project_correction(*project, expected_description@)),
        ),
{
    let change = if is_packaging_project(project) {
        apply_package_project_settings(project, expected_description)
    } else {
        apply_project_settings(project)
    };
    UnitPlan::new(
        label_of(project.name_with_namespace.as_str(), "project settings").as_str(),
        single(change),
    )
}

/// The rule that covers every tag of `project`, if it has one: the first of
/// `protected_tags` that is named `*`.
pub open spec fn wildcard_rule(protected_tags: Seq<ProtectedTag>) -> Option<ProtectedTag> {
    let at = tag_index(protected_tags, "*"@, 0);
    if at < protected_tags.len() {
        Some(protected_tags[at])
    } else {
        None
    }
}

/// The plan for the protected tags of a project of the hierarchy: developers
/// and nobody else may create a tag, whatever its name.
pub fn update_protected_tags(
    project: &GroupProjects,
    protected_tags: &Vec<ProtectedTag>,
) -> (plan: UnitPlan)
    ensures
        plan.is_plan_of(
            unit_label(project.name_with_namespace@, "protected tags"@),
            at_most_one(
                tag_correction(
                    project.id,
                    project.path_with_namespace@,
                    "*"@,
                    MyProtectedAccessLevel::Developer,
                    wildcard_rule(protected_tags@),
                ),
            ),
        ),
{
    let current = find_protected_tag(protected_tags, "*");
    let change = protect_tag(project, "*", MyProtectedAccessLevel::Developer, current);
    UnitPlan::new(
        label_of(project.name_with_namespace.as_str(), "protected tags").as_str(),
        single(change),
    )
}

/// The plan for the members of the infrastructure project: it has none of
/// its own, so every member leaves.
pub fn update_infrastructure_project_members(
    members: &Vec<GitLabMember>,
    bot_users: Option<&str>,
) -> (plan: UnitPlan)
    ensures
        plan.is_plan_of(
            "GitLab 'Arch Linux/Infrastructure' project members"@,
            member_changes(
                "archlinux/infrastructure"@,
                ceiling_policy(Scope::Project),
                memberships(members@),
                Seq::empty(),
                list_text(bot_users),
            ),
        ),
{
    let desired: Vec<&User> = Vec::new();
    assert(crate::state::users_of(desired@) =~= Seq::empty());
    let policy = MemberPolicy {
        scope: Scope::Project,
        access_level: AccessLevel::Developer,
        rule: AccessRule::AtMost,
        add_missing: false,
    };
    let changes = reconcile_members("archlinux/infrastructure", policy, members, &desired, bot_users);
    UnitPlan::new("GitLab 'Arch Linux/Infrastructure' project members", changes)
}

} // verus!
