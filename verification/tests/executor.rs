use gluebuddy::args::Action;
use gluebuddy::diff::diff_lines;
use gluebuddy::reconcile::change::{Change, ChangeKind, Request, Scope};
use gluebuddy::reconcile::executor::{execute, single, tally, try_execute, UnitPlan};
use gluebuddy::reconcile::members::{reconcile_members, AccessRule, MemberPolicy};
use gluebuddy::state::User;
use gluebuddy::types::{AccessLevel, GitLabMember};

fn change(kind: ChangeKind) -> Change {
    Change {
        kind,
        before: "a\nb".to_string(),
        after: "a\nc".to_string(),
        requests: vec![
            Request::UnprotectTag { project: 1, name: "*".to_string() },
            Request::EditGroup { group: 2, request_access_enabled: false },
        ],
    }
}

fn changes() -> Vec<Change> {
    let alice = {
        let mut user = User::new("alice".to_string());
        user.gitlab_id = Some(1);
        user
    };
    let bob = {
        let mut user = User::new("bob".to_string());
        user.gitlab_id = Some(2);
        user
    };
    let members = vec![
        GitLabMember { id: 2, username: "bob".to_string(), name: String::new(), email: None, access_level: 50 },
        GitLabMember { id: 9, username: "mallory".to_string(), name: String::new(), email: None, access_level: 30 },
        GitLabMember { id: 8, username: "eve".to_string(), name: String::new(), email: None, access_level: 30 },
    ];
    let policy = MemberPolicy { scope: Scope::Group, access_level: AccessLevel::Reporter, rule: AccessRule::Exact, add_missing: true };
    reconcile_members("g", policy, &members, &vec![&alice, &bob], None)
}

#[test]
fn a_plan_sends_nothing() {
    let execution = execute(Action::Plan, change(ChangeKind::Change));
    assert_eq!(execution.requests, vec![]);
    let texts: Vec<&str> = execution.diff.iter().map(|line| line.text.as_str()).collect();
    assert_eq!(texts, [" a", "-b", "+c"]);
}

#[test]
fn an_apply_sends_the_requests_of_the_change() {
    let execution = execute(Action::Apply, change(ChangeKind::Change));
    assert_eq!(execution.requests, change(ChangeKind::Change).requests);
    assert_eq!(execution.diff, diff_lines("a\nb", "a\nc"));
}

#[test]
fn plan_and_apply_show_the_same() {
    for change in changes() {
        let copy = Change {
            kind: change.kind,
            before: change.before.clone(),
            after: change.after.clone(),
            requests: vec![],
        };
        let planned = execute(Action::Plan, copy);
        let applied = execute(Action::Apply, change);
        assert_eq!(planned.diff, applied.diff);
        assert!(planned.requests.is_empty());
        assert_eq!(applied.requests.len(), 1);
    }
}

#[test]
fn the_tally_counts_each_kind() {
    let summary = tally("GitLab 'g' group members", &changes());
    assert_eq!(summary.name, "GitLab 'g' group members");
    assert_eq!(summary.add, 1);
    assert_eq!(summary.change, 1);
    assert_eq!(summary.destroy, 2);
    assert_eq!(summary.to_string(), "GitLab 'g' group members has changed!\nPlan: 1 to add, 1 to change, 2 to destroy.");
}

#[test]
fn a_unit_without_changes_is_up_to_date() {
    let plan = UnitPlan::new("unit", vec![]);
    assert!(plan.summary.is_up_to_date());
    assert_eq!(plan.summary.to_string(), "No changes. unit is up-to-date.");
    assert!(plan.changes.is_empty());
}

#[test]
fn at_most_one_change() {
    assert_eq!(single(None), vec![]);
    assert_eq!(single(Some(change(ChangeKind::Add))), vec![change(ChangeKind::Add)]);
}

#[test]
fn try_execute_is_execute_on_texts_that_fit() {
    let planned = try_execute(Action::Plan, change(ChangeKind::Change)).unwrap();
    assert!(planned.requests.is_empty());
    assert_eq!(planned.diff, execute(Action::Plan, change(ChangeKind::Change)).diff);
    let applied = try_execute(Action::Apply, change(ChangeKind::Destroy)).unwrap();
    assert_eq!(applied.requests, change(ChangeKind::Destroy).requests);
}
