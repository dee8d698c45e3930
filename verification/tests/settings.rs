use gluebuddy::diff::{diff_lines, LineKind};
use gluebuddy::reconcile::change::{ChangeKind, Request};
use gluebuddy::reconcile::settings::{
    apply_group_settings, apply_package_project_settings, apply_project_settings,
    generic_update, is_packaging_project, is_settled, packaging_update, project_description,
};
use gluebuddy::types::{
    Group, GroupBranchProtection, GroupProjects, ProjectFeatureAccessLevel,
    ProjectFeatureAccessLevelPublic, ProjectMergeMethod, ProjectVisibilityLevel,
};

fn packaging_project(description: &str) -> GroupProjects {
    GroupProjects {
        id: 42,
        archived: false,
        updated_at: time::OffsetDateTime::UNIX_EPOCH,
        name: "linux".to_string(),
        name_with_namespace: "Arch Linux / Packaging / Packages / linux".to_string(),
        path: "linux".to_string(),
        path_with_namespace: "archlinux/packaging/packages/linux".to_string(),
        description: Some(description.to_string()),
        visibility: ProjectVisibilityLevel::Public,
        request_access_enabled: false,
        packages_enabled: false,
        lfs_enabled: false,
        service_desk_enabled: false,
        issues_access_level: ProjectFeatureAccessLevel::Enabled,
        merge_requests_access_level: ProjectFeatureAccessLevel::Enabled,
        merge_method: ProjectMergeMethod::FastForward,
        only_allow_merge_if_all_discussions_are_resolved: true,
        builds_access_level: ProjectFeatureAccessLevel::Disabled,
        releases_access_level: ProjectFeatureAccessLevel::Disabled,
        container_registry_access_level: ProjectFeatureAccessLevel::Disabled,
        snippets_access_level: ProjectFeatureAccessLevel::Disabled,
        pages_access_level: ProjectFeatureAccessLevelPublic::Disabled,
        requirements_access_level: ProjectFeatureAccessLevel::Disabled,
        environments_access_level: ProjectFeatureAccessLevel::Disabled,
        feature_flags_access_level: ProjectFeatureAccessLevel::Disabled,
        infrastructure_access_level: ProjectFeatureAccessLevel::Disabled,
        monitor_access_level: ProjectFeatureAccessLevel::Disabled,
    }
}

fn group(request_access_enabled: bool) -> Group {
    Group {
        id: 11,
        name: "teams".to_string(),
        full_name: "Arch Linux / Teams".to_string(),
        path: "teams".to_string(),
        full_path: "archlinux/teams".to_string(),
        request_access_enabled,
        default_branch_protection: GroupBranchProtection::Full,
    }
}

#[test]
fn a_settled_packaging_project_needs_nothing() {
    let project = packaging_project("The kernel\n\npackages: linux");
    assert_eq!(apply_package_project_settings(&project, "The kernel\n\npackages: linux"), None);
    assert!(is_settled(&project, &packaging_update("The kernel\n\npackages: linux")));
    assert!(is_settled(&project, &generic_update()));
}

#[test]
fn enabled_snippets_are_the_one_difference_of_a_packaging_project() {
    let mut project = packaging_project("The kernel\n\npackages: linux");
    project.snippets_access_level = ProjectFeatureAccessLevel::Enabled;
    let change = apply_package_project_settings(&project, "The kernel\n\npackages: linux").unwrap();
    assert_eq!(change.kind, ChangeKind::Change);
    assert_eq!(change.requests, vec![Request::EditProject { project: 42, update: packaging_update("The kernel\n\npackages: linux") }]);
    match &change.requests[0] {
        Request::EditProject { update, .. } => {
            assert_eq!(update.description.as_deref(), Some("The kernel\n\npackages: linux"));
            assert_eq!(update.snippets_access_level, Some(ProjectFeatureAccessLevel::Disabled));
            assert_eq!(update.merge_method, Some(ProjectMergeMethod::FastForward));
            assert_eq!(update.issues_access_level, Some(ProjectFeatureAccessLevel::Enabled));
            assert_eq!(update.pages_access_level, Some(ProjectFeatureAccessLevelPublic::Disabled));
            assert_eq!(update.request_access_enabled, Some(false));
            assert_eq!(update.only_allow_merge_if_all_discussions_are_resolved, Some(true));
        }
        _ => panic!("not an update of a project"),
    }
    let lines = diff_lines(&change.before, &change.after);
    let differing: Vec<&str> = lines.iter().filter(|line| line.kind != LineKind::Same).map(|line| line.text.as_str()).collect();
    assert_eq!(
        differing,
        ["-\tsnippets_access_level           = enabled", "+\tsnippets_access_level           = disabled"]
    );
    assert_eq!(lines.len(), 23);
}

#[test]
fn another_description_is_a_difference_of_a_packaging_project() {
    let project = packaging_project("old");
    let change = apply_package_project_settings(&project, "new\n\npackages: x").unwrap();
    assert!(change.before.contains("\tdescription                     = old\n"));
    assert!(change.after.contains("\tdescription                     = new\\n\\npackages: x\n"));
    let mut none = packaging_project("");
    none.description = None;
    assert_eq!(project_description(&none), "");
    assert_eq!(apply_package_project_settings(&none, ""), None);
    assert!(apply_package_project_settings(&none, "x").is_some());
}

#[test]
fn any_project_is_held_to_three_settings() {
    let mut project = packaging_project("whatever");
    project.path_with_namespace = "archlinux/infrastructure".to_string();
    project.merge_method = ProjectMergeMethod::Merge;
    project.lfs_enabled = true;
    project.builds_access_level = ProjectFeatureAccessLevel::Enabled;
    assert_eq!(apply_project_settings(&project), None);
    project.request_access_enabled = true;
    let change = apply_project_settings(&project).unwrap();
    assert_eq!(change.kind, ChangeKind::Change);
    assert_eq!(change.requests, vec![Request::EditProject { project: 42, update: generic_update() }]);
    assert!(change.before.contains("\trequest_access_enabled          = true\n"));
    assert!(change.after.contains("\trequest_access_enabled          = false\n"));
    assert!(change.after.contains("\tmerge_method                    = merge\n"));
    assert!(change.after.contains("\tlfs_enabled                     = true\n"));
    assert!(change.after.contains("\tdescription                     = whatever\n"));
    let update = generic_update();
    assert_eq!(update.description, None);
    assert_eq!(update.request_access_enabled, Some(false));
    assert_eq!(update.only_allow_merge_if_all_discussions_are_resolved, Some(true));
    assert_eq!(update.snippets_access_level, Some(ProjectFeatureAccessLevel::Disabled));
    assert_eq!(update.merge_method, None);
    assert_eq!(update.lfs_enabled, None);
}

#[test]
fn each_of_the_three_settings_counts() {
    let mut project = packaging_project("d");
    project.only_allow_merge_if_all_discussions_are_resolved = false;
    assert!(apply_project_settings(&project).is_some());
    let mut project = packaging_project("d");
    project.snippets_access_level = ProjectFeatureAccessLevel::Private;
    assert!(apply_project_settings(&project).is_some());
}

#[test]
fn packaging_projects_are_known_by_their_path() {
    let mut project = packaging_project("d");
    assert!(is_packaging_project(&project));
    project.path_with_namespace = "archlinux/packaging/packages".to_string();
    assert!(is_packaging_project(&project));
    project.path_with_namespace = "archlinux/packaging".to_string();
    assert!(!is_packaging_project(&project));
    project.path_with_namespace = "archlinux/infrastructure".to_string();
    assert!(!is_packaging_project(&project));
}

#[test]
fn a_group_that_takes_requests_is_closed() {
    assert_eq!(apply_group_settings(&group(false)), None);
    let change = apply_group_settings(&group(true)).unwrap();
    assert_eq!(change.kind, ChangeKind::Change);
    assert_eq!(change.before, "gitlab_group_setting {\n\tnamespace              = archlinux/teams\n\trequest_access_enabled = true\n}");
    assert_eq!(change.after, "gitlab_group_setting {\n\tnamespace              = archlinux/teams\n\trequest_access_enabled = false\n}");
    assert_eq!(change.requests, vec![Request::EditGroup { group: 11, request_access_enabled: false }]);
}

#[test]
fn an_updated_project_needs_nothing() {
    let mut project = packaging_project("old");
    project.snippets_access_level = ProjectFeatureAccessLevel::Enabled;
    project.merge_method = ProjectMergeMethod::Merge;
    project.lfs_enabled = true;
    project.pages_access_level = ProjectFeatureAccessLevelPublic::Public;
    let change = apply_package_project_settings(&project, "new").unwrap();
    let update = match &change.requests[0] {
        Request::EditProject { update, .. } => update,
        _ => panic!("not an update of a project"),
    };
    project.description = update.description.clone();
    project.request_access_enabled = update.request_access_enabled.unwrap();
    project.packages_enabled = update.packages_enabled.unwrap();
    project.lfs_enabled = update.lfs_enabled.unwrap();
    project.service_desk_enabled = update.service_desk_enabled.unwrap();
    project.issues_access_level = update.issues_access_level.unwrap();
    project.merge_requests_access_level = update.merge_requests_access_level.unwrap();
    project.merge_method = update.merge_method.unwrap();
    project.only_allow_merge_if_all_discussions_are_resolved =
        update.only_allow_merge_if_all_discussions_are_resolved.unwrap();
    project.builds_access_level = update.builds_access_level.unwrap();
    project.container_registry_access_level = update.container_registry_access_level.unwrap();
    project.snippets_access_level = update.snippets_access_level.unwrap();
    project.pages_access_level = update.pages_access_level.unwrap();
    project.requirements_access_level = update.requirements_access_level.unwrap();
    project.releases_access_level = update.releases_access_level.unwrap();
    project.environments_access_level = update.environments_access_level.unwrap();
    project.feature_flags_access_level = update.feature_flags_access_level.unwrap();
    project.infrastructure_access_level = update.infrastructure_access_level.unwrap();
    project.monitor_access_level = update.monitor_access_level.unwrap();
    assert_eq!(apply_package_project_settings(&project, "new"), None);
    assert_eq!(apply_project_settings(&project), None);
}
