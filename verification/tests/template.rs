use git_revise::config::ReviseConfig;
use git_revise::revise::compose::{Action, Event, Session};
use git_revise::revise::commit::ReviseCommit;
use git_revise::cli::ReviseCommands;
use git_revise::revise::template::Template;

fn resolved_template(cfg: &ReviseConfig) -> Template {
    let mut t = Template::new(cfg);
    t.commit_type.ans = Some("feat".to_string());
    t.commit_scope.ans = Some("scope".to_string());
    t.commit_subject.ans = Some("add a new feature".to_string());
    t.commit_body.ans = Some("add a new feature with a body".to_string());
    t.commit_breaking.ans = Some("breaking change".to_string());
    t.commit_issue.ans = Some("#34".to_string());
    t
}

#[test]
fn template_renders_the_fixed_grammar() {
    let cfg = ReviseConfig::new();
    let t = resolved_template(&cfg);
    assert_eq!(
        t.render(),
        "feat(scope)!: add a new feature(#34)\n\nadd a new feature with a body\n\n\nBREAKING CHANGE: breaking change"
    );
}

#[test]
fn template_getters_read_the_answers() {
    let cfg = ReviseConfig::new();
    let t = resolved_template(&cfg);
    assert_eq!(t.get_ctype(), "feat");
    assert_eq!(t.get_cicon(&cfg), "\u{2728}");
    assert_eq!(t.get_cscope().as_deref(), Some("scope"));
    assert_eq!(t.get_csubject(), "add a new feature");
    assert_eq!(t.get_cbody().as_deref(), Some("add a new feature with a body"));
    assert_eq!(t.get_cbreaking().as_deref(), Some("breaking change"));
    assert_eq!(t.get_cissue().as_deref(), Some("#34"));
}

#[test]
fn configured_template_renders_through_the_engine() {
    let cfg = ReviseConfig::new();
    let t = resolved_template(&cfg);
    let out = t.template(&cfg, false).expect("the default template text renders");
    assert!(out.contains("feat"));
    assert!(out.contains("(scope)"));
    assert!(out.contains("!"));
    assert!(out.contains("add a new feature"));
    assert!(out.contains("(#34)"));
    assert!(out.contains("BREAKING CHANGE: breaking change"));
    assert!(out.contains("\u{2728}"));
}

#[test]
fn bad_template_text_is_refused_not_rendered() {
    let mut cfg = ReviseConfig::new();
    cfg.template = "{% if %}".to_string();
    let t = resolved_template(&cfg);
    assert!(t.template(&cfg, false).is_none());
}

#[test]
fn draft_message_follows_the_template() {
    let cfg = ReviseConfig::new();
    let t = resolved_template(&cfg);
    let draft = ReviseCommit::new(t);
    assert_eq!(
        draft.message,
        "feat(scope)!: add a new feature(#34)\n\nadd a new feature with a body\n\n\nBREAKING CHANGE: breaking change"
    );
}

#[test]
fn session_preview_matches_the_draft_message() {
    let cfg = ReviseConfig::new();
    let cmd = ReviseCommands { ai: None, add: vec![], excludes: vec![], message: None };
    let (mut session, _) = Session::start(cmd, &cfg);
    let _ = session.step(Event::Field { value: Some("feat".to_string()) });
    let _ = session.step(Event::Field { value: Some("scope".to_string()) });
    let _ = session.step(Event::Field { value: Some("add a new feature".to_string()) });
    let _ = session.step(Event::Field { value: Some("add a new feature with a body".to_string()) });
    let _ = session.step(Event::Field { value: Some("breaking change".to_string()) });
    let a = session.step(Event::Field { value: Some("#34".to_string()) });
    match a {
        Action::AskConfirm { preview } => assert_eq!(
            preview,
            "feat(scope)!: add a new feature(#34)\n\nadd a new feature with a body\n\n\nBREAKING CHANGE: breaking change"
        ),
        other => panic!("expected the confirmation prompt, got {other:?}"),
    }
}
