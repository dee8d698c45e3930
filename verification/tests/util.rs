use gluebuddy::types::{
    AccessLevel, GroupBranchProtection, MyProtectedAccessLevel, PlanSummary,
    ProjectFeatureAccessLevel, ProjectFeatureAccessLevelPublic, ProjectMergeMethod,
    ProjectVisibilityLevel, ProtectedAccessLevel,
};
use gluebuddy::util::{
    access_level_from_u64, format_gitlab_group_settings, format_gitlab_member_access,
    format_gitlab_project_protected_branch, format_gitlab_project_protected_tag,
    format_gitlab_project_settings, format_gitlab_user, format_mailman_membership,
    format_separator,
};

#[test]
fn access_levels_from_ranks() {
    assert_eq!(access_level_from_u64(60), AccessLevel::Admin);
    assert_eq!(access_level_from_u64(50), AccessLevel::Owner);
    assert_eq!(access_level_from_u64(40), AccessLevel::Maintainer);
    assert_eq!(access_level_from_u64(30), AccessLevel::Developer);
    assert_eq!(access_level_from_u64(20), AccessLevel::Reporter);
    assert_eq!(access_level_from_u64(10), AccessLevel::Guest);
    assert_eq!(access_level_from_u64(5), AccessLevel::Minimal);
    assert_eq!(access_level_from_u64(0), AccessLevel::Anonymous);
    assert_eq!(access_level_from_u64(15), AccessLevel::Anonymous);
    assert_eq!(access_level_from_u64(61), AccessLevel::Anonymous);
}

#[test]
fn access_level_round_trips_through_its_rank() {
    for level in [
        AccessLevel::Anonymous,
        AccessLevel::Minimal,
        AccessLevel::Guest,
        AccessLevel::Reporter,
        AccessLevel::Developer,
        AccessLevel::Maintainer,
        AccessLevel::Owner,
        AccessLevel::Admin,
    ] {
        assert_eq!(access_level_from_u64(level.as_u64()), level);
    }
    assert_eq!(AccessLevel::Developer.as_u64(), 30);
    assert_eq!(AccessLevel::Developer.as_str(), "developer");
    assert_eq!(AccessLevel::Minimal.as_str(), "minimal");
    assert_eq!(AccessLevel::Anonymous.as_str(), "anonymous");
}

#[test]
fn enum_names() {
    assert_eq!(ProjectVisibilityLevel::Public.as_str(), "public");
    assert_eq!(ProjectVisibilityLevel::Internal.as_str(), "internal");
    assert_eq!(ProjectVisibilityLevel::Private.as_str(), "private");
    assert_eq!(ProjectFeatureAccessLevel::Disabled.as_str(), "disabled");
    assert_eq!(ProjectFeatureAccessLevel::Private.as_str(), "private");
    assert_eq!(ProjectFeatureAccessLevel::Enabled.as_str(), "enabled");
    assert_eq!(ProjectFeatureAccessLevelPublic::Public.as_str(), "public");
    assert_eq!(ProjectFeatureAccessLevelPublic::Disabled.as_str(), "disabled");
    assert_eq!(GroupBranchProtection::Unprotected.as_str(), "none");
    assert_eq!(GroupBranchProtection::Partial.as_str(), "partial");
    assert_eq!(GroupBranchProtection::Full.as_str(), "full");
    assert_eq!(ProjectMergeMethod::Merge.as_str(), "merge");
    assert_eq!(ProjectMergeMethod::RebaseMerge.as_str(), "rebase_merge");
    assert_eq!(ProjectMergeMethod::FastForward.as_str(), "ff");
    assert_eq!(MyProtectedAccessLevel::NoAccess.as_str(), "no_access");
    assert_eq!(MyProtectedAccessLevel::Developer.as_str(), "developer");
    assert_eq!(MyProtectedAccessLevel::Maintainer.as_str(), "maintainer");
    assert_eq!(MyProtectedAccessLevel::Admin.as_str(), "admin");
}

#[test]
fn protected_access_level_from_rank() {
    let entry = |access_level: u64| ProtectedAccessLevel { access_level, access_level_description: "Developers + Maintainers".to_string() };
    assert_eq!(entry(60).as_gitlab_type(), MyProtectedAccessLevel::Admin);
    assert_eq!(entry(40).as_gitlab_type(), MyProtectedAccessLevel::Maintainer);
    assert_eq!(entry(30).as_gitlab_type(), MyProtectedAccessLevel::Developer);
    assert_eq!(entry(0).as_gitlab_type(), MyProtectedAccessLevel::NoAccess);
    assert_eq!(entry(50).as_gitlab_type(), MyProtectedAccessLevel::NoAccess);
    assert_eq!(entry(30).as_str(), "Developers + Maintainers");
}

#[test]
fn plan_summary_starts_clean() {
    let summary = PlanSummary::new("GitLab 'Arch Linux' group members");
    assert_eq!(summary.add, 0);
    assert_eq!(summary.change, 0);
    assert_eq!(summary.destroy, 0);
    assert!(summary.is_up_to_date());
    assert_eq!(summary.to_string(), "No changes. GitLab 'Arch Linux' group members is up-to-date.");
}

#[test]
fn plan_summary_reports_counts() {
    let mut summary = PlanSummary::new("unit");
    summary.add = 1;
    summary.change = 20;
    summary.destroy = 300;
    assert!(!summary.is_up_to_date());
    assert_eq!(summary.to_string(), "unit has changed!\nPlan: 1 to add, 20 to change, 300 to destroy.");
    let mut only_destroy = PlanSummary::new("x");
    only_destroy.destroy = 1;
    assert_eq!(only_destroy.to_string(), "x has changed!\nPlan: 0 to add, 0 to change, 1 to destroy.");
}

#[test]
fn mailman_membership_block() {
    assert_eq!(
        format_mailman_membership("staff.lists.archlinux.org", "alice@archlinux.org"),
        "mailing_list_membership {\n\tmailing_list = staff.lists.archlinux.org\n\temail  = alice@archlinux.org\n\n}"
    );
}

#[test]
fn member_access_block() {
    assert_eq!(
        format_gitlab_member_access("archlinux/teams/staff", "alice", AccessLevel::Reporter),
        "gitlab_member_access {\n\tnamespace    = archlinux/teams/staff\n\tusername     = alice\n\taccess_level = reporter\n}"
    );
}

#[test]
fn user_block() {
    assert_eq!(format_gitlab_user("alice", true), "gitlab_user {\n\tusername = alice\n\tadmin    = true\n}");
    assert_eq!(format_gitlab_user("bob", false), "gitlab_user {\n\tusername = bob\n\tadmin    = false\n}");
}

#[test]
fn group_settings_block() {
    assert_eq!(
        format_gitlab_group_settings("archlinux/teams", false),
        "gitlab_group_setting {\n\tnamespace              = archlinux/teams\n\trequest_access_enabled = false\n}"
    );
}

#[test]
fn protected_tag_block() {
    assert_eq!(
        format_gitlab_project_protected_tag(
            "archlinux/packaging/packages/linux",
            "*",
            &[MyProtectedAccessLevel::Developer, MyProtectedAccessLevel::Maintainer]
        ),
        "gitlab_project_protected_tag {\n\tnamespace           = archlinux/packaging/packages/linux\n\tname                = *\n\tcreate_access_level = developer, maintainer\n}"
    );
    assert_eq!(
        format_gitlab_project_protected_tag("p", "v*", &[]),
        "gitlab_project_protected_tag {\n\tnamespace           = p\n\tname                = v*\n\tcreate_access_level = \n}"
    );
    assert_eq!(
        format_gitlab_project_protected_tag("p", "*", &[MyProtectedAccessLevel::NoAccess]),
        "gitlab_project_protected_tag {\n\tnamespace           = p\n\tname                = *\n\tcreate_access_level = no_access\n}"
    );
}

#[test]
fn protected_branch_block() {
    assert_eq!(
        format_gitlab_project_protected_branch(
            "p",
            "main",
            &[MyProtectedAccessLevel::Developer],
            &[MyProtectedAccessLevel::Maintainer, MyProtectedAccessLevel::Admin]
        ),
        "gitlab_project_protected_branch {\n\tnamespace          = p\n\tname               = main\n\tpush_access_level  = developer\n\tmerge_access_level = maintainer, admin\n}"
    );
}

#[test]
fn project_settings_block() {
    let block = format_gitlab_project_settings(
        "archlinux/packaging/packages/linux",
        "The Linux kernel\n\npackages: linux linux-headers",
        false,
        ProjectFeatureAccessLevel::Enabled,
        ProjectFeatureAccessLevel::Enabled,
        ProjectMergeMethod::FastForward,
        true,
        ProjectFeatureAccessLevel::Disabled,
        ProjectFeatureAccessLevel::Private,
        false,
        ProjectFeatureAccessLevel::Disabled,
        true,
        false,
        ProjectFeatureAccessLevelPublic::Public,
        ProjectFeatureAccessLevel::Disabled,
        ProjectFeatureAccessLevel::Enabled,
        ProjectFeatureAccessLevel::Disabled,
        ProjectFeatureAccessLevel::Disabled,
        ProjectFeatureAccessLevel::Disabled,
        ProjectFeatureAccessLevel::Private,
    );
    let expected = format!(
        "gitlab_project_setting {{\n\
        \tnamespace                       = {}\n\
        \tdescription                     = {}\n\
        \trequest_access_enabled          = {}\n\
        \tissues_access_level             = {}\n\
        \tmerge_requests_access_level     = {}\n\
        \tmerge_method                    = {}\n\
        \tonly_allow_merge_if_all_discussions_are_resolved = {}\n\
        \tbuilds_access_level             = {}\n\
        \tcontainer_registry_access_level = {}\n\
        \tpackages_enabled                = {}\n\
        \tsnippets_access_level           = {}\n\
        \tlfs_enabled                     = {}\n\
        \tservice_desk_enabled            = {}\n\
        \tpages_access_level              = {}\n\
        \trequirements_access_level       = {}\n\
        \treleases_access_level           = {}\n\
        \tenvironments_access_level       = {}\n\
        \tfeature_flags_access_level      = {}\n\
        \tinfrastructure_access_level     = {}\n\
        \tmonitor_access_level            = {}\n\
        }}",
        "archlinux/packaging/packages/linux",
        "The Linux kernel\\n\\npackages: linux linux-headers",
        false,
        "enabled",
        "enabled",
        "ff",
        true,
        "disabled",
        "private",
        false,
        "disabled",
        true,
        false,
        "public",
        "disabled",
        "enabled",
        "disabled",
        "disabled",
        "disabled",
        "private",
    );
    assert_eq!(block, expected);
    assert_eq!(block.lines().count(), 22);
}

#[test]
fn separator_is_72_hyphens() {
    assert_eq!(format_separator(), "-".repeat(72));
}
