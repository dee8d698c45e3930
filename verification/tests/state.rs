use gluebuddy::state::{find_gitlab_id, PackageMaintainerRole, Role, State, User};

fn user(name: &str, id: Option<u64>, groups: &[&str]) -> User {
    let mut user = User::new(name.to_string());
    user.gitlab_id = id;
    for group in groups {
        user.join_group(group);
    }
    user
}

fn state() -> State {
    let mut state = State::default();
    state.users.push(user("alice", Some(1), &["/Arch Linux Staff/DevOps"]));
    state.users.push(user("bob", Some(2), &["/Arch Linux Staff/Package Maintainer Team/Core Package Maintainers"]));
    state.users.push(user("carol", None, &["/External Contributors"]));
    state.users.push(user("dave", Some(4), &["/Arch Linux Staff/Bug Wranglers", "/Arch Linux Staff/Package Maintainer Team/Junior Package Maintainers"]));
    state.users.push(user("erin", Some(5), &["/Arch Linux Staff"]));
    state
}

fn names(users: Vec<&User>) -> Vec<String> {
    users.iter().map(|user| user.username.clone()).collect()
}

#[test]
fn role_names_and_paths() {
    assert_eq!(PackageMaintainerRole::Core.as_str(), "Core Package Maintainers");
    assert_eq!(PackageMaintainerRole::JuniorCore.as_str(), "Junior Core Package Maintainers");
    assert_eq!(PackageMaintainerRole::Regular.as_str(), "Package Maintainers");
    assert_eq!(PackageMaintainerRole::Junior.as_str(), "Junior Package Maintainers");
    assert_eq!(PackageMaintainerRole::Core.to_path(), "core-package-maintainers");
    assert_eq!(PackageMaintainerRole::JuniorCore.to_path(), "junior-core-package-maintainers");
    assert_eq!(PackageMaintainerRole::Regular.to_path(), "package-maintainers");
    assert_eq!(PackageMaintainerRole::Junior.to_path(), "junior-package-maintainers");
}

#[test]
fn new_user_is_in_no_group() {
    let user = User::new("alice".to_string());
    assert_eq!(user.username, "alice");
    assert_eq!(user.gitlab_id, None);
    assert!(user.groups.is_empty());
    assert!(!user.is_staff());
    assert!(!user.is_external_contributor());
}

#[test]
fn roles_follow_group_prefixes() {
    let alice = user("alice", None, &["/Arch Linux Staff/DevOps"]);
    assert!(alice.is_staff());
    assert!(alice.is_devops());
    assert!(!alice.is_package_maintainer());
    assert!(!alice.is_bug_wrangler());
    assert!(!alice.is_external_contributor());
    let erin = user("erin", None, &["/Arch Linux Staff"]);
    assert!(!erin.is_staff());
    let bob = user("bob", None, &["/Arch Linux Staff/Package Maintainer Team/Core Package Maintainers"]);
    assert!(bob.is_staff());
    assert!(bob.is_package_maintainer());
    assert!(bob.has_package_maintainer_role(PackageMaintainerRole::Core));
    assert!(!bob.has_package_maintainer_role(PackageMaintainerRole::Regular));
    assert!(!bob.has_package_maintainer_role(PackageMaintainerRole::JuniorCore));
    let carol = user("carol", None, &["/External Contributors/Translators"]);
    assert!(carol.is_external_contributor());
    assert!(!carol.is_staff());
    assert!(carol.has_role(Role::StaffOrExternalContributor));
    assert!(!carol.has_role(Role::Staff));
    assert!(alice.has_role(Role::DevOps));
    assert!(bob.has_role(Role::PackageMaintainerOf(PackageMaintainerRole::Core)));
}

#[test]
fn join_group_lists_a_group_once() {
    let mut user = User::new("alice".to_string());
    user.join_group("/a");
    user.join_group("/b");
    user.join_group("/a");
    assert_eq!(user.groups, vec!["/a".to_string(), "/b".to_string()]);
    assert!(user.in_group("/b"));
    assert!(!user.in_group("/c"));
}

#[test]
fn role_sets_keep_listing_order() {
    let state = state();
    assert_eq!(names(state.staff()), ["alice", "bob", "dave"]);
    assert_eq!(names(state.staff_with_externals()), ["alice", "bob", "carol", "dave"]);
    assert_eq!(names(state.devops()), ["alice"]);
    assert_eq!(names(state.package_maintainers()), ["bob", "dave"]);
    assert_eq!(names(state.package_maintainers_by_role(PackageMaintainerRole::Core)), ["bob"]);
    assert_eq!(names(state.package_maintainers_by_role(PackageMaintainerRole::Junior)), ["dave"]);
    assert_eq!(names(state.package_maintainers_by_role(PackageMaintainerRole::Regular)), Vec::<String>::new());
    assert_eq!(names(state.bug_wranglers()), ["dave"]);
    assert_eq!(names(state.members_of(Role::ExternalContributor)), ["carol"]);
}

#[test]
fn users_are_found_by_gitlab_id_within_their_role() {
    let state = state();
    assert_eq!(state.user_from_gitlab_id(5).map(|u| u.username.as_str()), Some("erin"));
    assert_eq!(state.user_from_gitlab_id(3), None);
    assert_eq!(state.staff_from_gitlab_id(1).map(|u| u.username.as_str()), Some("alice"));
    assert_eq!(state.staff_from_gitlab_id(5), None);
    assert_eq!(state.staff_with_externals_from_gitlab_id(2).map(|u| u.username.as_str()), Some("bob"));
    assert_eq!(state.devops_from_gitlab_id(1).map(|u| u.username.as_str()), Some("alice"));
    assert_eq!(state.devops_from_gitlab_id(2), None);
    assert_eq!(state.package_maintainer_from_gitlab_id(4).map(|u| u.username.as_str()), Some("dave"));
    assert_eq!(
        state.package_maintainer_from_gitlab_id_and_role(4, PackageMaintainerRole::Junior).map(|u| u.username.as_str()),
        Some("dave")
    );
    assert_eq!(state.package_maintainer_from_gitlab_id_and_role(4, PackageMaintainerRole::Core), None);
    assert_eq!(state.bug_wrangler_from_gitlab_id(4).map(|u| u.username.as_str()), Some("dave"));
    assert_eq!(state.bug_wrangler_from_gitlab_id(1), None);
}

#[test]
fn find_gitlab_id_takes_the_first_match() {
    let first = user("first", Some(7), &[]);
    let second = user("second", Some(7), &[]);
    let none = user("none", None, &[]);
    let users = vec![&none, &first, &second];
    assert_eq!(find_gitlab_id(&users, 7).map(|u| u.username.as_str()), Some("first"));
    assert_eq!(find_gitlab_id(&users, 8), None);
}

#[test]
fn default_state_is_empty() {
    assert!(State::default().users.is_empty());
    assert!(State::default().staff().is_empty());
}
