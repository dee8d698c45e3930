use gluebuddy::diff::{diff_fits, diff_lines, render, DiffLine, Difference, LineKind};
use gluebuddy::types::AccessLevel;
use gluebuddy::util::format_gitlab_member_access;

fn shown(lines: &[DiffLine]) -> Vec<String> {
    lines.iter().map(|line| line.text.clone()).collect()
}

#[test]
fn render_marks_every_line_of_a_run() {
    let lines = render(&vec![
        Difference::Same("a\nb".to_string()),
        Difference::Rem("c".to_string()),
        Difference::Add("d\ne".to_string()),
        Difference::Same("".to_string()),
    ]);
    assert_eq!(shown(&lines), [" a", " b", "-c", "+d", "+e"]);
    let kinds: Vec<LineKind> = lines.iter().map(|line| line.kind).collect();
    assert_eq!(kinds, [LineKind::Same, LineKind::Same, LineKind::Rem, LineKind::Add, LineKind::Add]);
}

#[test]
fn render_keeps_empty_lines_within_a_run() {
    let lines = render(&vec![Difference::Add("a\n\nb\n".to_string())]);
    assert_eq!(shown(&lines), ["+a", "+", "+b"]);
    assert_eq!(render(&vec![]), vec![]);
}

#[test]
fn mark_chars() {
    assert_eq!(LineKind::Same.mark_char(), ' ');
    assert_eq!(LineKind::Add.mark_char(), '+');
    assert_eq!(LineKind::Rem.mark_char(), '-');
}

#[test]
fn a_new_block_is_all_additions() {
    let block = format_gitlab_member_access("archlinux", "alice", AccessLevel::Minimal);
    let lines = diff_lines("", &block);
    assert_eq!(
        shown(&lines),
        [
            "+gitlab_member_access {",
            "+\tnamespace    = archlinux",
            "+\tusername     = alice",
            "+\taccess_level = minimal",
            "+}",
        ]
    );
    assert!(lines.iter().all(|line| line.kind == LineKind::Add));
}

#[test]
fn a_removed_block_is_all_removals() {
    let block = format_gitlab_member_access("archlinux", "mallory", AccessLevel::Owner);
    let lines = diff_lines(&block, "");
    assert_eq!(lines.len(), 5);
    assert!(lines.iter().all(|line| line.kind == LineKind::Rem && line.text.starts_with('-')));
    assert_eq!(lines[3].text, "-\taccess_level = owner");
}

#[test]
fn a_changed_level_shows_one_line_going_and_one_coming() {
    let before = format_gitlab_member_access("archlinux", "alice", AccessLevel::Maintainer);
    let after = format_gitlab_member_access("archlinux", "alice", AccessLevel::Developer);
    let lines = diff_lines(&before, &after);
    assert_eq!(
        shown(&lines),
        [
            " gitlab_member_access {",
            " \tnamespace    = archlinux",
            " \tusername     = alice",
            "-\taccess_level = maintainer",
            "+\taccess_level = developer",
            " }",
        ]
    );
}

#[test]
fn equal_texts_show_no_change() {
    let lines = diff_lines("a\nb", "a\nb");
    assert_eq!(shown(&lines), [" a", " b"]);
    assert_eq!(diff_lines("", ""), vec![]);
}

#[test]
fn texts_of_ordinary_size_fit() {
    assert!(diff_fits("", ""));
    assert!(diff_fits("a\nb\nc", "d"));
    let long = "x\n".repeat(10_000);
    assert!(diff_fits(&long, &long));
}
