use git_revise::ai::gemini::{CandidateSet, Commit, Gemini};
use git_revise::cli::{AICommand, ReviseCommands};
use git_revise::config::ReviseConfig;
use git_revise::error::ReviseError;
use git_revise::revise::compose::{Action, Event, FieldKind, Outcome, Session};

fn generate_cmd(excludes: Vec<String>) -> ReviseCommands {
    ReviseCommands { ai: Some(AICommand::Generate), add: vec![], excludes, message: None }
}

fn manual_cmd() -> ReviseCommands {
    ReviseCommands { ai: None, add: vec![], excludes: vec![], message: None }
}

fn field(value: Option<&str>) -> Event {
    Event::Field { value: value.map(|s| s.to_string()) }
}

/// Drives a manual session up to the confirmation prompt.
fn manual_to_confirm(session: &mut Session) -> String {
    let a = session.step(field(Some("feat")));
    assert!(matches!(a, Action::AskField { field: FieldKind::Scope }));
    let a = session.step(field(None));
    assert!(matches!(a, Action::AskField { field: FieldKind::Subject }));
    let a = session.step(field(Some("do the thing")));
    assert!(matches!(a, Action::AskField { field: FieldKind::Body }));
    let a = session.step(field(None));
    assert!(matches!(a, Action::AskField { field: FieldKind::Breaking }));
    let a = session.step(field(None));
    assert!(matches!(a, Action::AskField { field: FieldKind::Issue }));
    let a = session.step(field(None));
    match a {
        Action::AskConfirm { preview } => preview,
        other => panic!("expected the confirmation prompt, got {other:?}"),
    }
}

#[test]
fn manual_flow_renders_and_submits() {
    let cfg = ReviseConfig::new();
    let (mut session, a) = Session::start(manual_cmd(), &cfg);
    assert!(matches!(a, Action::AskField { field: FieldKind::Type }));
    let preview = manual_to_confirm(&mut session);
    assert_eq!(preview, "feat: do the thing");
    let a = session.step(Event::ConfirmInput { token: "y".to_string() });
    match a {
        Action::Finish { outcome: Outcome::Message { text } } => {
            assert_eq!(text, "feat: do the thing");
        }
        other => panic!("expected submission, got {other:?}"),
    }
}

#[test]
fn abort_is_a_clean_no_op() {
    let cfg = ReviseConfig::new();
    let (mut session, _) = Session::start(manual_cmd(), &cfg);
    let _ = manual_to_confirm(&mut session);
    let a = session.step(Event::ConfirmInput { token: "n".to_string() });
    match a {
        Action::Finish { outcome } => {
            // No message is ever produced, so the caller has nothing to commit.
            assert_eq!(outcome, Outcome::Aborted);
        }
        other => panic!("expected the session to finish, got {other:?}"),
    }
}

#[test]
fn edit_takes_the_editor_text_verbatim() {
    let cfg = ReviseConfig::new();
    let (mut session, _) = Session::start(manual_cmd(), &cfg);
    let preview = manual_to_confirm(&mut session);
    let a = session.step(Event::ConfirmInput { token: "e".to_string() });
    match a {
        Action::OpenEditor { seed } => assert_eq!(seed, preview),
        other => panic!("expected the editor, got {other:?}"),
    }
    let a = session.step(Event::Edited { text: "custom: msg".to_string() });
    match a {
        Action::Finish { outcome: Outcome::Message { text } } => {
            assert_eq!(text, "custom: msg");
        }
        other => panic!("expected the edited message, got {other:?}"),
    }
}

#[test]
fn unknown_confirmation_tokens_ask_again() {
    let cfg = ReviseConfig::new();
    let (mut session, _) = Session::start(manual_cmd(), &cfg);
    let preview = manual_to_confirm(&mut session);
    let a = session.step(Event::ConfirmInput { token: "maybe".to_string() });
    match a {
        Action::AskConfirm { preview: again } => assert_eq!(again, preview),
        other => panic!("expected a re-prompt, got {other:?}"),
    }
}

#[test]
fn generate_flow_spawns_before_fields_and_joins_after() {
    let cfg = ReviseConfig::new();
    let (mut session, a) = Session::start(
        generate_cmd(vec!["README.md".to_string()]),
        &cfg,
    );
    match a {
        Action::GetDiff { excludes } => assert_eq!(excludes, vec!["README.md".to_string()]),
        other => panic!("expected the diff request, got {other:?}"),
    }
    let a = session.step(Event::Diff { result: Ok("+line\n".to_string()) });
    match a {
        Action::StartAi { text } => assert_eq!(text, "+line\n"),
        other => panic!("expected the AI unit of work, got {other:?}"),
    }
    let a = session.step(Event::AiSpawned);
    assert!(matches!(a, Action::AskField { field: FieldKind::Type }));
    let a = session.step(field(Some("feat")));
    assert!(matches!(a, Action::AskField { field: FieldKind::Scope }));
    let a = session.step(field(None));
    assert!(matches!(a, Action::AskField { field: FieldKind::Breaking }));
    let a = session.step(field(None));
    assert!(matches!(a, Action::AskField { field: FieldKind::Issue }));
    let a = session.step(field(None));
    assert!(matches!(a, Action::JoinAi));
    let set = CandidateSet::from_candidates(vec![Commit {
        kind: "feat".to_string(),
        message: "Add parser".to_string(),
        body: "Implements tokenizer".to_string(),
    }]);
    let a = session.step(Event::AiJoined { result: Ok(set) });
    let key = match a {
        Action::AskCandidate { options } => {
            assert_eq!(options, vec!["Message: Add parser\n\rBody: Implements tokenizer".to_string()]);
            options[0].clone()
        }
        other => panic!("expected the candidate choice, got {other:?}"),
    };
    let a = session.step(Event::CandidateChosen { key });
    match a {
        Action::AskConfirm { preview } => {
            assert_eq!(preview, "feat: Add parser\n\nImplements tokenizer");
        }
        other => panic!("expected the confirmation prompt, got {other:?}"),
    }
    let a = session.step(Event::ConfirmInput { token: "".to_string() });
    match a {
        Action::Finish { outcome: Outcome::Message { text } } => {
            assert_eq!(text, "feat: Add parser\n\nImplements tokenizer");
        }
        other => panic!("expected submission, got {other:?}"),
    }
}

#[test]
fn ai_failure_propagates_unchanged() {
    let cfg = ReviseConfig::new();
    let (mut session, _) = Session::start(generate_cmd(vec![]), &cfg);
    let _ = session.step(Event::Diff { result: Ok("+x\n".to_string()) });
    let _ = session.step(Event::AiSpawned);
    let _ = session.step(field(Some("feat")));
    let _ = session.step(field(None));
    let _ = session.step(field(None));
    let a = session.step(field(None));
    assert!(matches!(a, Action::JoinAi));
    let g = Gemini::new("k");
    let err = g.handle_response(500, "overloaded").unwrap_err();
    assert_eq!(err, ReviseError::Api { status: 500, body: "overloaded".to_string() });
    let a = session.step(Event::AiJoined { result: Err(err.clone()) });
    match a {
        Action::Finish { outcome } => assert_eq!(outcome, Outcome::Failed { error: err }),
        other => panic!("expected the failure to propagate, got {other:?}"),
    }
}

#[test]
fn empty_diff_falls_back_to_a_text_prompt() {
    let cfg = ReviseConfig::new();
    let (mut session, _) = Session::start(generate_cmd(vec![]), &cfg);
    let a = session.step(Event::Diff { result: Ok(String::new()) });
    assert!(matches!(a, Action::AskText));
    let a = session.step(Event::Text { text: String::new() });
    match a {
        Action::Finish { outcome: Outcome::Failed { error } } => {
            assert!(matches!(error, ReviseError::Validation { .. }));
        }
        other => panic!("expected a validation failure, got {other:?}"),
    }
}

#[test]
fn cancellation_aborts_cleanly() {
    let cfg = ReviseConfig::new();
    let (mut session, _) = Session::start(manual_cmd(), &cfg);
    let a = session.step(Event::Cancelled);
    match a {
        Action::Finish { outcome } => assert_eq!(outcome, Outcome::Aborted),
        other => panic!("expected a clean abort, got {other:?}"),
    }
}

#[test]
fn diff_failure_propagates_as_git_error() {
    let cfg = ReviseConfig::new();
    let (mut session, _) = Session::start(generate_cmd(vec![]), &cfg);
    let err = ReviseError::Git { message: "no repository".to_string() };
    let a = session.step(Event::Diff { result: Err(err.clone()) });
    match a {
        Action::Finish { outcome } => assert_eq!(outcome, Outcome::Failed { error: err }),
        other => panic!("expected the failure to propagate, got {other:?}"),
    }
}

#[test]
fn translate_mode_starts_from_the_given_text() {
    let cfg = ReviseConfig::new();
    let cmd = ReviseCommands {
        ai: Some(AICommand::Translate("explain this".to_string())),
        add: vec![],
        excludes: vec![],
        message: None,
    };
    let (_, a) = Session::start(cmd, &cfg);
    match a {
        Action::StartAi { text } => assert_eq!(text, "explain this"),
        other => panic!("expected the AI unit of work, got {other:?}"),
    }
}
