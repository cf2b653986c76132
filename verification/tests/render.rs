use git_revise::commit::{CommitStatus, ReviseCommit};
use git_revise::revise::prompts::{commit_breaking, preview, resolve_editor};

fn sample_draft() -> ReviseCommit {
    let mut d = ReviseCommit::default();
    d.commit_type = "feat".to_string();
    d.commit_scope = Some("scope".to_string());
    d.commit_subject = "add a new feature".to_string();
    d.commit_body = Some("add a new feature with a body".to_string());
    d.commit_breaking = Some("breaking change".to_string());
    d.commit_issue = Some("#34".to_string());
    d
}

#[test]
fn render_full_draft() {
    let d = sample_draft();
    assert_eq!(
        d.render(),
        "feat(scope)!: add a new feature(#34)\n\nadd a new feature with a body\n\n\nBREAKING CHANGE: breaking change"
    );
}

#[test]
fn render_minimal_draft() {
    let mut d = ReviseCommit::default();
    d.commit_type = "fix".to_string();
    d.commit_subject = "repair the parser".to_string();
    assert_eq!(d.render(), "fix: repair the parser");
}

#[test]
fn render_is_deterministic_and_idempotent() {
    let d = sample_draft();
    let first = d.render();
    let second = d.render();
    assert_eq!(first, second);
    let third = d.render();
    assert_eq!(second, third);
}

#[test]
fn render_scope_only() {
    let mut d = ReviseCommit::default();
    d.commit_type = "docs".to_string();
    d.commit_scope = Some("readme".to_string());
    d.commit_subject = "describe the flags".to_string();
    assert_eq!(d.render(), "docs(readme): describe the flags");
}

#[test]
fn render_breaking_without_scope() {
    let mut d = ReviseCommit::default();
    d.commit_type = "feat".to_string();
    d.commit_subject = "drop the old API".to_string();
    d.commit_breaking = Some("the old entry points are gone".to_string());
    assert_eq!(
        d.render(),
        "feat!: drop the old API\n\n\nBREAKING CHANGE: the old entry points are gone"
    );
}

#[test]
fn status_grammar() {
    assert_eq!(CommitStatus::from_str("y").unwrap(), CommitStatus::Submit);
    assert_eq!(CommitStatus::from_str("YES").unwrap(), CommitStatus::Submit);
    assert_eq!(CommitStatus::from_str("").unwrap(), CommitStatus::Submit);
    assert_eq!(CommitStatus::from_str("  yes \n").unwrap(), CommitStatus::Submit);
    assert_eq!(CommitStatus::from_str("n\u{000C}").unwrap(), CommitStatus::Abort);
    assert_eq!(CommitStatus::from_str("\u{00A0}yes\u{00A0}").unwrap(), CommitStatus::Submit);
    assert_eq!(CommitStatus::from_str("e\u{000B}").unwrap(), CommitStatus::Edit);
    assert_eq!(CommitStatus::from_str("n").unwrap(), CommitStatus::Abort);
    assert_eq!(CommitStatus::from_str("No").unwrap(), CommitStatus::Abort);
    assert_eq!(CommitStatus::from_str("e").unwrap(), CommitStatus::Edit);
    assert_eq!(CommitStatus::from_str("EDIT").unwrap(), CommitStatus::Edit);
    assert!(CommitStatus::from_str("maybe").is_err());
    assert!(CommitStatus::from_str("yess").is_err());
}

#[test]
fn preview_truncates_long_submissions() {
    assert_eq!(preview(""), "<skipped>");
    assert_eq!(preview("short"), "short");
    assert_eq!(preview("exactly twenty chars"), "exactly twenty chars");
    assert_eq!(preview("twenty-one characters"), "twenty-one charac...");
}

#[test]
fn show_contains_the_fields() {
    let d = sample_draft();
    let shown = d.show();
    assert!(shown.contains("feat"));
    assert!(shown.contains("add a new feature"));
    assert!(shown.contains("BREAKING CHANGE"));
}

#[test]
fn editor_answers_resolve_with_the_skip_marker() {
    assert_eq!(resolve_editor(""), None);
    assert_eq!(resolve_editor("<skipped>"), None);
    assert_eq!(resolve_editor("a note").as_deref(), Some("a note"));
    assert_eq!(commit_breaking::inquire_commit_breaking("<skipped>").unwrap(), None);
    assert_eq!(
        commit_breaking::inquire_commit_breaking("drops the old flag").unwrap().as_deref(),
        Some("drops the old flag")
    );
}
