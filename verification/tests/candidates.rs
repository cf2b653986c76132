use git_revise::ai::gemini::{
    extract_json_array, fingerprint, CandidateSet, Commit, Gemini,
};
use git_revise::error::ReviseError;

fn commit(kind: &str, message: &str, body: &str) -> Commit {
    Commit { kind: kind.to_string(), message: message.to_string(), body: body.to_string() }
}

#[test]
fn fenced_response_yields_one_exact_entry() {
    let text = "```json\n[{\"type\":\"feat\",\"message\":\"Add parser\",\"body\":\"Implements tokenizer\"}]\n```";
    let g = Gemini::new("k");
    let body = format!(
        "{{\"candidates\":[{{\"content\":{{\"parts\":[{{\"text\":{}}}]}}}}]}}",
        serde_json::to_string(text).unwrap()
    );
    let set = g.handle_response(200, &body).unwrap();
    assert_eq!(set.len(), 1);
    let key = "Message: Add parser\n\rBody: Implements tokenizer";
    assert_eq!(set.keys(), vec![key.to_string()]);
    let c = set.get(key).unwrap();
    assert_eq!(c.kind, "feat");
    assert_eq!(c.message, "Add parser");
    assert_eq!(c.body, "Implements tokenizer");
}

#[test]
fn api_error_carries_status_and_body() {
    let g = Gemini::new("k");
    let err = g.handle_response(500, "overloaded").unwrap_err();
    assert_eq!(err, ReviseError::Api { status: 500, body: "overloaded".to_string() });
}

#[test]
fn missing_candidates_is_a_parse_error() {
    let g = Gemini::new("k");
    let err = g.handle_response(200, "{\"candidates\":[]}").unwrap_err();
    assert!(matches!(err, ReviseError::Parse { .. }));
    let err = g.handle_response(200, "not json at all").unwrap_err();
    assert!(matches!(err, ReviseError::Parse { .. }));
    let err = g
        .handle_response(200, "{\"candidates\":[{\"content\":{\"parts\":[]}}]}")
        .unwrap_err();
    assert!(matches!(err, ReviseError::Parse { .. }));
}

#[test]
fn text_without_an_array_is_a_parse_error() {
    let g = Gemini::new("k");
    let body = "{\"candidates\":[{\"content\":{\"parts\":[{\"text\":\"no array here\"}]}}]}";
    let err = g.handle_response(200, body).unwrap_err();
    assert!(matches!(err, ReviseError::Parse { .. }));
}

#[test]
fn malformed_records_are_a_parse_error() {
    let g = Gemini::new("k");
    // The array parses as JSON but one record lacks the body member.
    let body = "{\"candidates\":[{\"content\":{\"parts\":[{\"text\":\"[{\\\"type\\\":\\\"t\\\",\\\"message\\\":\\\"m\\\"}]\"}]}}]}";
    let err = g.handle_response(200, body).unwrap_err();
    assert!(matches!(err, ReviseError::Parse { .. }));
}

#[test]
fn extraction_finds_the_first_balanced_array() {
    assert_eq!(
        extract_json_array("prose [1, [2], 3] more [4]").as_deref(),
        Some("[1, [2], 3]")
    );
    assert_eq!(extract_json_array("no brackets"), None);
    assert_eq!(extract_json_array("open [1, 2"), None);
    assert_eq!(extract_json_array("[]").as_deref(), Some("[]"));
}

#[test]
fn duplicate_candidates_collapse() {
    let a = commit("feat", "Add parser", "body");
    let b = commit("fix", "Add parser", "body");
    let c = commit("feat", "Other", "body");
    let set = CandidateSet::from_candidates(vec![a.clone(), b.clone(), c.clone()]);
    assert_eq!(set.len(), 2);
    // The later duplicate wins, as a mapping insert overwrites the value.
    let key = fingerprint(&a);
    assert_eq!(set.get(&key).unwrap().kind, "fix");
}

#[test]
fn reinserting_a_duplicate_keeps_the_cardinality() {
    let mut set = CandidateSet::new();
    set.insert(commit("feat", "m", "b"));
    assert_eq!(set.len(), 1);
    set.insert(commit("feat", "m", "b"));
    assert_eq!(set.len(), 1);
    set.insert(commit("chore", "m", "b"));
    assert_eq!(set.len(), 1);
    set.insert(commit("feat", "m2", "b"));
    assert_eq!(set.len(), 2);
}

#[test]
fn cardinality_never_exceeds_the_parsed_count() {
    let list = vec![
        commit("a", "x", "1"),
        commit("b", "x", "1"),
        commit("c", "y", "2"),
        commit("d", "y", "2"),
    ];
    let n = list.len();
    let set = CandidateSet::from_candidates(list);
    assert!(set.len() <= n);
    assert_eq!(set.len(), 2);
}

#[test]
fn extra_record_members_are_tolerated() {
    let g = Gemini::new("k");
    let text = "[{\"type\":\"feat\",\"message\":\"m\",\"body\":\"b\",\"note\":7}]";
    let body = format!(
        "{{\"candidates\":[{{\"content\":{{\"parts\":[{{\"text\":{}}}]}}}}]}}",
        serde_json::to_string(text).unwrap()
    );
    let set = g.handle_response(200, &body).unwrap();
    assert_eq!(set.len(), 1);
    assert_eq!(set.get("Message: m\n\rBody: b").unwrap().kind, "feat");
}

#[test]
fn fingerprint_has_the_documented_shape() {
    let c = commit("feat", "Add parser", "Implements tokenizer");
    assert_eq!(fingerprint(&c), "Message: Add parser\n\rBody: Implements tokenizer");
}

#[test]
fn request_carries_two_user_turns() {
    let g = Gemini::new("SECRET-REDACTED");
    assert_eq!(
        g.url,
        "https://generativelanguage.googleapis.com/v1beta/models/gemini-1.5-pro-latest:generateContent?key=SECRET-REDACTED"
    );
    let req = g.build_request("diff text");
    assert_eq!(req.contents.len(), 2);
    assert_eq!(req.contents[0].parts[0].text.as_deref(), Some(g.prompt.as_str()));
    assert_eq!(req.contents[1].parts[0].text.as_deref(), Some("diff text"));
    assert_eq!(
        req.generation_config.unwrap().response_mime_type.as_deref(),
        Some("application/json")
    );
    assert!(req.tools.is_empty());
    assert!(req.safety_settings.is_empty());
}

#[test]
fn persona_prompt_carries_the_output_grammar() {
    let g = Gemini::new("k");
    assert_eq!(g.prompt, git_revise::ai::gemini::PERSONA_PROMPT);
    assert!(g.prompt.contains("# Character"));
    assert!(g.prompt.contains("## Output Format"));
    assert!(g.prompt.contains("{\"type\": \"<type>\", \"message\": \"<message>\", \"body\": \"<body>\"}"));
    assert!(g.prompt.contains("## Error Handling"));
}
