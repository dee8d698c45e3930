use gluebuddy::reconcile::change::{ChangeKind, Request, Scope};
use gluebuddy::reconcile::members::AccessRule;
use gluebuddy::reconcile::units::{
    teams, update_archlinux_group_members, update_bug_wranglers_group_members,
    update_devops_group_members, update_group_members, update_group_settings,
    update_infrastructure_project_members, update_package_maintainer_group_members,
    update_project_members, update_project_settings, update_protected_tags,
    update_staff_group_members, update_team_members, Team,
};
use gluebuddy::state::{PackageMaintainerRole, Role, State};
use gluebuddy::types::{
    AccessLevel, GitLabMember, Group, GroupBranchProtection, GroupProjects,
    MyProtectedAccessLevel, ProjectFeatureAccessLevel, ProjectFeatureAccessLevelPublic,
    ProjectMergeMethod, ProjectVisibilityLevel, ProtectedAccessLevel, ProtectedTag,
};

fn member(id: u64, username: &str, access_level: u64) -> GitLabMember {
    GitLabMember { id, username: username.to_string(), name: String::new(), email: None, access_level }
}

fn state() -> State {
    let mut state = State::default();
    state.record_membership("alice", "/Arch Linux Staff/DevOps");
    state.record_membership("bob", "/Arch Linux Staff/Package Maintainer Team/Core Package Maintainers");
    state.record_membership("carol", "/External Contributors");
    state.record_membership("dave", "/Arch Linux Staff/Bug Wranglers");
    state.record_membership("erin", "/Arch Linux Staff/DevOps");
    for (i, user) in state.users.iter_mut().enumerate() {
        if user.username != "erin" {
            user.gitlab_id = Some(i as u64 + 1);
        }
    }
    state
}

fn group() -> Group {
    Group {
        id: 11,
        name: "teams".to_string(),
        full_name: "Arch Linux / Teams".to_string(),
        path: "teams".to_string(),
        full_path: "archlinux/teams".to_string(),
        request_access_enabled: true,
        default_branch_protection: GroupBranchProtection::Full,
    }
}

fn project(path_with_namespace: &str) -> GroupProjects {
    GroupProjects {
        id: 42,
        archived: false,
        updated_at: time::OffsetDateTime::UNIX_EPOCH,
        name: "linux".to_string(),
        name_with_namespace: "Arch Linux / linux".to_string(),
        path: "linux".to_string(),
        path_with_namespace: path_with_namespace.to_string(),
        description: Some("d".to_string()),
        visibility: ProjectVisibilityLevel::Public,
        request_access_enabled: false,
        packages_enabled: true,
        lfs_enabled: false,
        service_desk_enabled: false,
        issues_access_level: ProjectFeatureAccessLevel::Enabled,
        merge_requests_access_level: ProjectFeatureAccessLevel::Enabled,
        merge_method: ProjectMergeMethod::FastForward,
        only_allow_merge_if_all_discussions_are_resolved: true,
        builds_access_level: ProjectFeatureAccessLevel::Disabled,
        releases_access_level: ProjectFeatureAccessLevel::Disabled,
        container_registry_access_level: ProjectFeatureAccessLevel::Disabled,
        snippets_access_level: ProjectFeatureAccessLevel::Disabled,
        pages_access_level: ProjectFeatureAccessLevelPublic::Disabled,
        requirements_access_level: ProjectFeatureAccessLevel::Disabled,
        environments_access_level: ProjectFeatureAccessLevel::Disabled,
        feature_flags_access_level: ProjectFeatureAccessLevel::Disabled,
        infrastructure_access_level: ProjectFeatureAccessLevel::Disabled,
        monitor_access_level: ProjectFeatureAccessLevel::Disabled,
    }
}

#[test]
fn teams_in_the_order_of_a_run() {
    assert_eq!(
        teams(),
        [
            Team::ArchLinux,
            Team::Staff,
            Team::DevOps,
            Team::PackageMaintainers(PackageMaintainerRole::Core),
            Team::PackageMaintainers(PackageMaintainerRole::JuniorCore),
            Team::PackageMaintainers(PackageMaintainerRole::Regular),
            Team::PackageMaintainers(PackageMaintainerRole::Junior),
            Team::BugWranglers,
        ]
    );
}

#[test]
fn team_paths_labels_roles_and_levels() {
    let expected = [
        ("archlinux", "GitLab 'Arch Linux' group members", Role::Staff, AccessLevel::Minimal),
        ("archlinux/teams/staff", "GitLab 'Arch Linux/Teams/Staff' group members", Role::Staff, AccessLevel::Reporter),
        ("archlinux/teams/devops", "GitLab 'Arch Linux/Teams/DevOps' group members", Role::DevOps, AccessLevel::Developer),
        (
            "archlinux/teams/package-maintainer-team/core-package-maintainers",
            "GitLab 'Arch Linux/Teams/Package Maintainer Team/Core Package Maintainers' group members",
            Role::PackageMaintainerOf(PackageMaintainerRole::Core),
            AccessLevel::Developer,
        ),
        (
            "archlinux/teams/package-maintainer-team/junior-core-package-maintainers",
            "GitLab 'Arch Linux/Teams/Package Maintainer Team/Junior Core Package Maintainers' group members",
            Role::PackageMaintainerOf(PackageMaintainerRole::JuniorCore),
            AccessLevel::Developer,
        ),
        (
            "archlinux/teams/package-maintainer-team/package-maintainers",
            "GitLab 'Arch Linux/Teams/Package Maintainer Team/Package Maintainers' group members",
            Role::PackageMaintainerOf(PackageMaintainerRole::Regular),
            AccessLevel::Developer,
        ),
        (
            "archlinux/teams/package-maintainer-team/junior-package-maintainers",
            "GitLab 'Arch Linux/Teams/Package Maintainer Team/Junior Package Maintainers' group members",
            Role::PackageMaintainerOf(PackageMaintainerRole::Junior),
            AccessLevel::Developer,
        ),
        ("archlinux/teams/bug-wranglers", "GitLab 'Arch Linux/Teams/Bug Wranglers' group members", Role::BugWrangler, AccessLevel::Reporter),
    ];
    for (team, (path, label, role, level)) in teams().into_iter().zip(expected) {
        assert_eq!(team.path(), path);
        assert_eq!(team.summary_label(), label);
        assert_eq!(team.member_role(), role);
        let policy = team.member_policy();
        assert_eq!(policy.access_level, level);
        assert_eq!(policy.rule, AccessRule::Exact);
        assert_eq!(policy.scope, Scope::Group);
        assert!(policy.add_missing);
    }
}

#[test]
fn staff_without_platform_number_is_not_counted_as_added() {
    let mut state = State::default();
    state.record_membership("alice", "/Arch Linux Staff/DevOps");
    let plan = update_staff_group_members(&state, &vec![], None);
    assert!(plan.changes.is_empty());
    assert_eq!(plan.summary.add, 0);
    assert_eq!(plan.summary.to_string(), "No changes. GitLab 'Arch Linux/Teams/Staff' group members is up-to-date.");
    state.users[0].gitlab_id = Some(7);
    let plan = update_staff_group_members(&state, &vec![], None);
    assert_eq!(plan.summary.add, 1);
    assert_eq!(plan.changes.len(), 1);
    assert_eq!(
        plan.summary.to_string(),
        "GitLab 'Arch Linux/Teams/Staff' group members has changed!\nPlan: 1 to add, 0 to change, 0 to destroy."
    );
}

#[test]
fn the_root_group_follows_staff_at_minimal_access() {
    let members = vec![member(1, "alice", 5), member(2, "bob", 30), member(3, "carol", 5), member(99, "archceo", 50)];
    let plan = update_archlinux_group_members(&state(), &members, None);
    assert_eq!(plan.summary.name, "GitLab 'Arch Linux' group members");
    assert_eq!((plan.summary.add, plan.summary.change, plan.summary.destroy), (1, 1, 1));
    assert_eq!(
        plan.changes[0].requests,
        vec![Request::AddMember { scope: Scope::Group, namespace: "archlinux".to_string(), user: 4, access_level: AccessLevel::Minimal }]
    );
    assert_eq!(
        plan.changes[1].requests,
        vec![Request::EditMember { scope: Scope::Group, namespace: "archlinux".to_string(), user: 2, access_level: AccessLevel::Minimal }]
    );
    assert_eq!(
        plan.changes[2].requests,
        vec![Request::RemoveMember { scope: Scope::Group, namespace: "archlinux".to_string(), user: 3 }]
    );
}

#[test]
fn each_team_follows_its_role() {
    let state = state();
    let devops = update_devops_group_members(&state, &vec![], None);
    assert_eq!(devops.summary.add, 1);
    assert_eq!(
        devops.changes[0].requests,
        vec![Request::AddMember { scope: Scope::Group, namespace: "archlinux/teams/devops".to_string(), user: 1, access_level: AccessLevel::Developer }]
    );
    let core = update_package_maintainer_group_members(PackageMaintainerRole::Core, &state, &vec![], None);
    assert_eq!(core.summary.add, 1);
    assert_eq!(
        core.changes[0].requests,
        vec![Request::AddMember {
            scope: Scope::Group,
            namespace: "archlinux/teams/package-maintainer-team/core-package-maintainers".to_string(),
            user: 2,
            access_level: AccessLevel::Developer,
        }]
    );
    let junior = update_package_maintainer_group_members(PackageMaintainerRole::Junior, &state, &vec![member(2, "bob", 30)], None);
    assert_eq!((junior.summary.add, junior.summary.change, junior.summary.destroy), (0, 0, 1));
    let wranglers = update_bug_wranglers_group_members(&state, &vec![member(4, "dave", 20)], None);
    assert!(wranglers.summary.is_up_to_date());
    let same = update_team_members(Team::BugWranglers, &state, &vec![member(4, "dave", 20)], None);
    assert_eq!(same.changes, wranglers.changes);
}

#[test]
fn groups_of_the_hierarchy_cap_access_and_add_nobody() {
    let members = vec![member(1, "alice", 50), member(2, "bob", 30), member(3, "carol", 10), member(50, "renovate", 40)];
    let plan = update_group_members(&group(), &state(), &members, Some("renovate"));
    assert_eq!(plan.summary.name, "GitLab 'Arch Linux / Teams' group members");
    assert_eq!((plan.summary.add, plan.summary.change, plan.summary.destroy), (0, 1, 1));
    assert_eq!(
        plan.changes[0].requests,
        vec![Request::EditMember { scope: Scope::Group, namespace: "archlinux/teams".to_string(), user: 1, access_level: AccessLevel::Developer }]
    );
    assert_eq!(
        plan.changes[1].requests,
        vec![Request::RemoveMember { scope: Scope::Group, namespace: "archlinux/teams".to_string(), user: 3 }]
    );
}

#[test]
fn projects_of_the_hierarchy_keep_external_contributors() {
    let members = vec![member(3, "carol", 40), member(77, "stranger", 10)];
    let plan = update_project_members(&project("archlinux/linux"), &state(), &members, None);
    assert_eq!(plan.summary.name, "GitLab 'Arch Linux / linux' project members");
    assert_eq!((plan.summary.add, plan.summary.change, plan.summary.destroy), (0, 1, 1));
    assert_eq!(
        plan.changes[0].requests,
        vec![Request::EditMember { scope: Scope::Project, namespace: "archlinux/linux".to_string(), user: 3, access_level: AccessLevel::Developer }]
    );
}

#[test]
fn group_settings_unit() {
    let plan = update_group_settings(&group());
    assert_eq!(plan.summary.name, "GitLab 'archlinux/teams' group settings");
    assert_eq!((plan.summary.add, plan.summary.change, plan.summary.destroy), (0, 1, 0));
    let mut closed = group();
    closed.request_access_enabled = false;
    assert!(update_group_settings(&closed).summary.is_up_to_date());
}

#[test]
fn project_settings_unit_picks_the_profile_by_path() {
    let generic = update_project_settings(&project("archlinux/infrastructure"), "ignored");
    assert_eq!(generic.summary.name, "GitLab 'Arch Linux / linux' project settings");
    assert!(generic.summary.is_up_to_date());
    let packaging = update_project_settings(&project("archlinux/packaging/packages/linux"), "d");
    assert_eq!(packaging.summary.change, 1);
    assert_eq!(packaging.changes[0].kind, ChangeKind::Change);
    assert!(packaging.changes[0].before.contains("\tpackages_enabled                = true\n"));
    assert!(packaging.changes[0].after.contains("\tpackages_enabled                = false\n"));
}

#[test]
fn protected_tags_unit_looks_at_the_wildcard() {
    let rule = |name: &str, level: u64| ProtectedTag {
        name: name.to_string(),
        create_access_levels: vec![ProtectedAccessLevel { access_level: level, access_level_description: String::new() }],
    };
    let project = project("archlinux/linux");
    let missing = update_protected_tags(&project, &vec![rule("v*", 30)]);
    assert_eq!(missing.summary.name, "GitLab 'Arch Linux / linux' protected tags");
    assert_eq!((missing.summary.add, missing.summary.change, missing.summary.destroy), (1, 0, 0));
    let wrong = update_protected_tags(&project, &vec![rule("v*", 30), rule("*", 40)]);
    assert_eq!((wrong.summary.add, wrong.summary.change, wrong.summary.destroy), (0, 1, 0));
    assert_eq!(
        wrong.changes[0].requests,
        vec![
            Request::UnprotectTag { project: 42, name: "*".to_string() },
            Request::ProtectTag { project: 42, name: "*".to_string(), create_access_level: MyProtectedAccessLevel::Developer },
        ]
    );
    let right = update_protected_tags(&project, &vec![rule("*", 30)]);
    assert!(right.summary.is_up_to_date());
}

#[test]
fn the_infrastructure_project_keeps_no_member_of_its_own() {
    let members = vec![member(1, "alice", 30), member(2, "bob", 40), member(60, "archbot", 40)];
    let plan = update_infrastructure_project_members(&members, None);
    assert_eq!(plan.summary.name, "GitLab 'Arch Linux/Infrastructure' project members");
    assert_eq!((plan.summary.add, plan.summary.change, plan.summary.destroy), (0, 0, 2));
    assert_eq!(
        plan.changes[1].requests,
        vec![Request::RemoveMember { scope: Scope::Project, namespace: "archlinux/infrastructure".to_string(), user: 2 }]
    );
    assert!(update_infrastructure_project_members(&vec![], None).summary.is_up_to_date());
}
