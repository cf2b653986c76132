use git_revise::cli::ReviseCommands;
use git_revise::config::{Hook, ReviseConfig};
use git_revise::hook::{plan_hooks, HookRunner, HookType};
use git_revise::revise::status::Status;
use git_revise::revise::template::Template;
use git_revise::revise::{run_plan, Revise, RunPlan};

#[test]
fn test_run_hook() {
    let func = |(a, b, c): (i32, i32, i32)| -> String {
        println!("running hook");
        println!("a: {a}");
        println!("b: {b}");
        println!("c: {c}");
        format!("result: {}", a + b + c)
    };

    let result = HookRunner::run_hook(func, (3, 4, 5));
    assert_eq!(result, "result: 12");
}

fn hook(command: &str, order: Option<u32>, skip: Option<bool>) -> Hook {
    Hook { command: command.to_string(), order, skip }
}

#[test]
fn hooks_run_in_order_with_unordered_last() {
    let hooks = vec![
        hook("third", None, None),
        hook("second", Some(20), None),
        hook("first", Some(1), Some(false)),
    ];
    let plan = plan_hooks(&hooks);
    let commands: Vec<&str> = plan.iter().map(|h| h.command.as_str()).collect();
    assert_eq!(commands, vec!["first", "second", "third"]);
}

#[test]
fn skipped_hooks_are_dropped() {
    let hooks = vec![
        hook("kept", Some(2), None),
        hook("dropped", Some(1), Some(true)),
    ];
    let plan = plan_hooks(&hooks);
    let commands: Vec<&str> = plan.iter().map(|h| h.command.as_str()).collect();
    assert_eq!(commands, vec!["kept"]);
}

#[test]
fn hook_type_names_parse() {
    assert_eq!(HookType::from_str("pre-add").unwrap(), HookType::PreAdd);
    assert_eq!(HookType::from_str("post-add").unwrap(), HookType::PostAdd);
    assert_eq!(HookType::from_str("pre-commit").unwrap(), HookType::PreCommit);
    assert_eq!(HookType::from_str("post-commit").unwrap(), HookType::PostCommit);
    assert_eq!(HookType::from_str("pre-push").unwrap(), HookType::PrePush);
    assert_eq!(HookType::from_str("post-merge").unwrap(), HookType::PostMerge);
    assert!(HookType::from_str("mid-commit").is_err());
}

#[test]
fn run_plan_prefers_a_given_message() {
    let direct = ReviseCommands {
        ai: None,
        add: vec!["src".to_string()],
        excludes: vec![],
        message: Some("fix: given".to_string()),
    };
    match run_plan(direct) {
        RunPlan::CommitDirect { message } => assert_eq!(message, "fix: given"),
        RunPlan::Interactive { .. } => panic!("a given message must be committed directly"),
    }

    let interactive = ReviseCommands {
        ai: None,
        add: vec!["src".to_string()],
        excludes: vec![],
        message: None,
    };
    match run_plan(interactive) {
        RunPlan::Interactive { add } => assert_eq!(add, vec!["src".to_string()]),
        RunPlan::CommitDirect { .. } => panic!("no message was given"),
    }
}

#[test]
fn session_plans_pick_the_configured_moment() {
    let cfg = ReviseConfig::new();
    let session = Revise {
        template: Template::new(&cfg),
        status: Status::Submit,
        message: String::new(),
        hooks: vec![
            (HookType::PreCommit, vec![hook("lint", Some(2), None), hook("fmt", Some(1), None)]),
            (HookType::PostCommit, vec![hook("notify", None, None)]),
        ],
    };
    let pre: Vec<String> = session.pre_commit_plan().into_iter().map(|h| h.command).collect();
    assert_eq!(pre, vec!["fmt".to_string(), "lint".to_string()]);
    let post: Vec<String> = session.post_commit_plan().into_iter().map(|h| h.command).collect();
    assert_eq!(post, vec!["notify".to_string()]);
    assert!(session.pre_add_plan().is_empty());
    assert!(session.post_add_plan().is_empty());
}
