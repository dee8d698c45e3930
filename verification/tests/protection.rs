use gluebuddy::reconcile::change::{ChangeKind, Request};
use gluebuddy::reconcile::protection::{
    find_protected_tag, is_in_order, levels_of, protect_branch, protect_tag,
};
use gluebuddy::types::{
    GroupProjects, MyProtectedAccessLevel, ProjectFeatureAccessLevel,
    ProjectFeatureAccessLevelPublic, ProjectMergeMethod, ProjectVisibilityLevel,
    ProtectedAccess, ProtectedAccessLevel, ProtectedBranch, ProtectedTag,
};

fn project() -> GroupProjects {
    GroupProjects {
        id: 42,
        archived: false,
        updated_at: time::OffsetDateTime::UNIX_EPOCH,
        name: "linux".to_string(),
        name_with_namespace: "Arch Linux / Packaging / Packages / linux".to_string(),
        path: "linux".to_string(),
        path_with_namespace: "archlinux/packaging/packages/linux".to_string(),
        description: None,
        visibility: ProjectVisibilityLevel::Public,
        request_access_enabled: false,
        packages_enabled: false,
        lfs_enabled: false,
        service_desk_enabled: false,
        issues_access_level: ProjectFeatureAccessLevel::Enabled,
        merge_requests_access_level: ProjectFeatureAccessLevel::Enabled,
        merge_method: ProjectMergeMethod::FastForward,
        only_allow_merge_if_all_discussions_are_resolved: true,
        builds_access_level: ProjectFeatureAccessLevel::Disabled,
        releases_access_level: ProjectFeatureAccessLevel::Disabled,
        container_registry_access_level: ProjectFeatureAccessLevel::Disabled,
        snippets_access_level: ProjectFeatureAccessLevel::Disabled,
        pages_access_level: ProjectFeatureAccessLevelPublic::Disabled,
        requirements_access_level: ProjectFeatureAccessLevel::Disabled,
        environments_access_level: ProjectFeatureAccessLevel::Disabled,
        feature_flags_access_level: ProjectFeatureAccessLevel::Disabled,
        infrastructure_access_level: ProjectFeatureAccessLevel::Disabled,
        monitor_access_level: ProjectFeatureAccessLevel::Disabled,
    }
}

fn entries(levels: &[u64]) -> Vec<ProtectedAccessLevel> {
    levels
        .iter()
        .map(|level| ProtectedAccessLevel { access_level: *level, access_level_description: format!("level {}", level) })
        .collect()
}

fn tag(name: &str, levels: &[u64]) -> ProtectedTag {
    ProtectedTag { name: name.to_string(), create_access_levels: entries(levels) }
}

fn unprotect() -> Request {
    Request::UnprotectTag { project: 42, name: "*".to_string() }
}

fn protect() -> Request {
    Request::ProtectTag { project: 42, name: "*".to_string(), create_access_level: MyProtectedAccessLevel::Developer }
}

#[test]
fn levels_of_entries() {
    assert_eq!(
        levels_of(&entries(&[30, 40, 60, 0, 20])),
        vec![
            MyProtectedAccessLevel::Developer,
            MyProtectedAccessLevel::Maintainer,
            MyProtectedAccessLevel::Admin,
            MyProtectedAccessLevel::NoAccess,
            MyProtectedAccessLevel::NoAccess,
        ]
    );
    assert!(is_in_order(&vec![MyProtectedAccessLevel::Developer], MyProtectedAccessLevel::Developer));
    assert!(!is_in_order(&vec![MyProtectedAccessLevel::Maintainer], MyProtectedAccessLevel::Developer));
    assert!(!is_in_order(&vec![], MyProtectedAccessLevel::Developer));
    assert!(!is_in_order(
        &vec![MyProtectedAccessLevel::Developer, MyProtectedAccessLevel::Developer],
        MyProtectedAccessLevel::Developer
    ));
}

#[test]
fn the_first_rule_of_a_name_is_found() {
    let tags = vec![tag("v*", &[30]), tag("*", &[40]), tag("*", &[30])];
    let found = find_protected_tag(&tags, "*").unwrap();
    assert_eq!(found.create_access_levels[0].access_level, 40);
    assert!(find_protected_tag(&tags, "release").is_none());
    assert!(find_protected_tag(&vec![], "*").is_none());
}

#[test]
fn a_missing_rule_is_added() {
    let change = protect_tag(&project(), "*", MyProtectedAccessLevel::Developer, None).unwrap();
    assert_eq!(change.kind, ChangeKind::Add);
    assert_eq!(change.before, "");
    assert_eq!(
        change.after,
        "gitlab_project_protected_tag {\n\tnamespace           = archlinux/packaging/packages/linux\n\tname                = *\n\tcreate_access_level = developer\n}"
    );
    assert_eq!(change.requests, vec![protect()]);
}

#[test]
fn a_rule_with_the_one_right_entry_stays() {
    assert_eq!(protect_tag(&project(), "*", MyProtectedAccessLevel::Developer, Some(&tag("*", &[30]))), None);
}

#[test]
fn a_rule_with_one_wrong_entry_is_replaced() {
    let change = protect_tag(&project(), "*", MyProtectedAccessLevel::Developer, Some(&tag("*", &[40]))).unwrap();
    assert_eq!(change.kind, ChangeKind::Change);
    assert_eq!(
        change.before,
        "gitlab_project_protected_tag {\n\tnamespace           = archlinux/packaging/packages/linux\n\tname                = *\n\tcreate_access_level = maintainer\n}"
    );
    assert_eq!(change.requests, vec![unprotect(), protect()]);
}

#[test]
fn a_rule_with_several_entries_is_replaced_even_if_the_right_one_is_among_them() {
    for levels in [&[30u64, 40][..], &[40, 30], &[30, 30], &[40, 60], &[30, 40, 60]] {
        let change = protect_tag(&project(), "*", MyProtectedAccessLevel::Developer, Some(&tag("*", levels))).unwrap();
        assert_eq!(change.kind, ChangeKind::Change);
        assert_eq!(change.requests, vec![unprotect(), protect()]);
    }
}

#[test]
fn a_rule_without_entries_is_replaced() {
    let change = protect_tag(&project(), "*", MyProtectedAccessLevel::Developer, Some(&tag("*", &[]))).unwrap();
    assert_eq!(change.requests, vec![unprotect(), protect()]);
    assert_eq!(
        change.before,
        "gitlab_project_protected_tag {\n\tnamespace           = archlinux/packaging/packages/linux\n\tname                = *\n\tcreate_access_level = \n}"
    );
}

#[test]
fn a_rule_set_anew_needs_nothing() {
    let first = protect_tag(&project(), "*", MyProtectedAccessLevel::Developer, Some(&tag("*", &[40, 60])));
    assert!(first.is_some());
    assert_eq!(protect_tag(&project(), "*", MyProtectedAccessLevel::Developer, Some(&tag("*", &[30]))), None);
}

#[test]
fn branch_rules_are_held_to_one_entry_each() {
    let expected = ProtectedAccess {
        name: "main".to_string(),
        push_access_level: MyProtectedAccessLevel::Developer,
        merge_access_level: MyProtectedAccessLevel::Developer,
    };
    let branch = |push: &[u64], merge: &[u64]| ProtectedBranch {
        id: 1,
        name: "main".to_string(),
        push_access_levels: entries(push),
        merge_access_levels: entries(merge),
    };
    assert_eq!(protect_branch(&project(), &expected, Some(&branch(&[30], &[30]))), None);
    let added = protect_branch(&project(), &expected, None).unwrap();
    assert_eq!(added.kind, ChangeKind::Add);
    assert_eq!(
        added.requests,
        vec![Request::ProtectBranch {
            project: 42,
            name: "main".to_string(),
            push_access_level: MyProtectedAccessLevel::Developer,
            merge_access_level: MyProtectedAccessLevel::Developer,
        }]
    );
    for (push, merge) in [(&[40u64][..], &[30u64][..]), (&[30], &[40]), (&[30, 40], &[30]), (&[30], &[])] {
        let change = protect_branch(&project(), &expected, Some(&branch(push, merge))).unwrap();
        assert_eq!(change.kind, ChangeKind::Change);
        assert_eq!(change.requests.len(), 2);
        assert_eq!(change.requests[0], Request::UnprotectBranch { project: 42, name: "main".to_string() });
    }
}
