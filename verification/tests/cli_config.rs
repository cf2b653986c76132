use git_revise::cli::{parse_command, AICommand, Cli};
use git_revise::commit::{CommitAnswers, ReviseCommit};
use git_revise::config::ReviseConfig;
use git_revise::revise::prompts::{commit_scope, commit_type};
use git_revise::revise::status::Status;

fn plain_cli() -> Cli {
    Cli {
        generate: false,
        translate: None,
        path: vec![],
        exclude: vec![],
        retain: vec![],
        message: None,
    }
}

#[test]
fn excludes_combine_and_retained_files_come_back_out() {
    let mut cfg = ReviseConfig::new();
    cfg.exclude_files = vec!["a.lock".to_string(), "b.lock".to_string()];
    let mut cli = plain_cli();
    cli.exclude = vec!["c.txt".to_string(), "a.lock".to_string()];
    cli.retain = vec!["a.lock".to_string()];
    let cmd = parse_command(cli, &cfg);
    assert_eq!(cmd.excludes, vec!["b.lock".to_string(), "c.txt".to_string()]);
}

#[test]
fn generate_wins_over_translate() {
    let cfg = ReviseConfig::new();
    let mut cli = plain_cli();
    cli.generate = true;
    cli.translate = Some("text".to_string());
    let cmd = parse_command(cli, &cfg);
    assert_eq!(cmd.ai, Some(AICommand::Generate));
}

#[test]
fn translate_text_passes_through() {
    let cfg = ReviseConfig::new();
    let mut cli = plain_cli();
    cli.translate = Some("explain".to_string());
    let cmd = parse_command(cli, &cfg);
    assert_eq!(cmd.ai, Some(AICommand::Translate("explain".to_string())));
}

#[test]
fn default_config_has_the_conventional_types() {
    let cfg = ReviseConfig::new();
    assert_eq!(cfg.types.len(), 11);
    assert_eq!(cfg.types[0].key, "feat");
    assert_eq!(cfg.types[10].key, "revert");
    assert_eq!(cfg.emojis.len(), 11);
    assert!(cfg.scopes.is_empty());
    assert!(cfg.api_key.is_empty());
}

#[test]
fn type_labels_line_up_past_the_longest_key() {
    let cfg = ReviseConfig::new();
    let labels = cfg.get_types();
    assert_eq!(labels[0], "feat:     A new feature");
    assert_eq!(labels[4], "refactor: A code change that neither fixes a bug nor adds a feature");
    assert_eq!(cfg.get_type_key(0).as_deref(), Some("feat"));
    assert_eq!(cfg.get_type_key(99), None);
    assert_eq!(cfg.get_emoji("feat").as_deref(), Some("\u{2728}"));
    assert_eq!(cfg.get_emoji("unknown"), None);
}

#[test]
fn manual_answers_resolve_into_a_rendered_message() {
    let cfg = ReviseConfig::new();
    let labels = cfg.get_types();
    let answers = CommitAnswers {
        type_label: labels[1].clone(),
        scope: "custom".to_string(),
        custom_scope: "parser".to_string(),
        subject: "repair the tokenizer".to_string(),
        body: String::new(),
        breaking: String::new(),
        issue: "#7".to_string(),
    };
    let mut draft = ReviseCommit::default();
    draft.commit(&cfg, &answers).unwrap();
    assert_eq!(draft.commit_message, "fix(parser): repair the tokenizer(#7)");
}

#[test]
fn empty_subject_is_rejected() {
    let cfg = ReviseConfig::new();
    let labels = cfg.get_types();
    let answers = CommitAnswers {
        type_label: labels[0].clone(),
        scope: "empty".to_string(),
        custom_scope: String::new(),
        subject: String::new(),
        body: String::new(),
        breaking: String::new(),
        issue: String::new(),
    };
    let mut draft = ReviseCommit::default();
    assert!(draft.commit(&cfg, &answers).is_err());
}

#[test]
fn unknown_type_label_is_rejected() {
    let cfg = ReviseConfig::new();
    let answers = CommitAnswers {
        type_label: "nonsense".to_string(),
        scope: "empty".to_string(),
        custom_scope: String::new(),
        subject: "subject".to_string(),
        body: String::new(),
        breaking: String::new(),
        issue: String::new(),
    };
    let mut draft = ReviseCommit::default();
    let err = draft.commit(&cfg, &answers).unwrap_err();
    assert!(matches!(err, git_revise::error::ReviseError::Selection { .. }));
}

#[test]
fn status_mirrors_the_shared_grammar() {
    assert_eq!(Status::from_str("Y").unwrap(), Status::Submit);
    assert_eq!(Status::from_str("no").unwrap(), Status::Abort);
    assert_eq!(Status::from_str(" edit ").unwrap(), Status::Edit);
    assert!(Status::from_str("q").is_err());
    assert_eq!(Status::Submit.as_str(), "Submit");
    assert_eq!(Status::Abort.as_str(), "Abort");
    assert_eq!(Status::Edit.as_str(), "Edit");
}

#[test]
fn api_keys_are_found_by_name() {
    let mut cfg = ReviseConfig::new();
    cfg.api_key = vec![("gemini_key".to_string(), "SECRET-REDACTED".to_string())];
    assert_eq!(cfg.get_api_key("gemini_key").as_deref(), Some("SECRET-REDACTED"));
    assert_eq!(cfg.get_api_key("other"), None);
}

#[test]
fn prompt_parts_resolve_their_answers() {
    let cfg = ReviseConfig::new();
    let labels = cfg.get_types();

    let mut ty = commit_type::Part::new(&cfg);
    assert_eq!(ty.options, labels);
    ty.resolve(&cfg, &labels[2]).unwrap();
    assert_eq!(ty.ans.as_deref(), Some("docs"));
    assert!(ty.resolve(&cfg, "no such label").is_err());

    let mut scope = commit_scope::Part::new(&cfg);
    assert_eq!(scope.options.first().map(|s| s.as_str()), Some("empty"));
    assert_eq!(scope.options.last().map(|s| s.as_str()), Some("custom"));
    scope.resolve("custom", "parser");
    assert_eq!(scope.ans.as_deref(), Some("parser"));
    scope.resolve("custom", "");
    assert_eq!(scope.ans, None);
    scope.resolve("empty", "");
    assert_eq!(scope.ans, None);
    scope.resolve("core", "");
    assert_eq!(scope.ans.as_deref(), Some("core"));
}
