use cliff::{
    combined_context, command_outcome, escape_quotes, expand_home, history_context, history_prompt,
    is_exit, is_url_source, plan_prompt, question_prompt, request_auth, request_body, search_url,
    session_entry, session_prompt, split_at_colon, Action, Auth, ContextContent,
};

#[test]
fn request_body_for_question_with_file_context() {
    let fetched = vec![ContextContent {
        source: "test_context_file".to_string(),
        content: "test context".to_string(),
    }];
    let context = combined_context(&fetched);
    let prompt = question_prompt("test prompt", &context);
    let body = request_body(
        r#"{"model": "{{model}}", "input": "{{prompt}}"}"#,
        &prompt,
        &Some("test_model".to_string()),
    );
    assert_eq!(
        body,
        "{\"model\": \"test_model\", \"input\": \"\n    Question: test prompt\n\n    Context: Context from test_context_file:\ntest context\n\n\"}"
    );
}

#[test]
fn request_body_escapes_and_defaults_model() {
    let body = request_body("{{model}}|{{prompt}}", "say \"hi\" \\ bye", &None);
    assert_eq!(body, "?|say \\\"hi\\\" \\\\ bye");
}

#[test]
fn escape_quotes_marks_backslashes_and_quotes() {
    assert_eq!(escape_quotes(r#"a"b\c"#), r#"a\"b\\c"#);
    assert_eq!(escape_quotes(""), "");
}

#[test]
fn combined_context_joins_sources() {
    assert_eq!(combined_context(&Vec::new()), None);
    let fetched = vec![
        ContextContent { source: "a".to_string(), content: "1".to_string() },
        ContextContent { source: "b".to_string(), content: "2".to_string() },
    ];
    assert_eq!(
        combined_context(&fetched).as_deref(),
        Some("Context from a:\n1\n\nContext from b:\n2\n")
    );
}

#[test]
fn question_prompt_without_context() {
    assert_eq!(question_prompt("why", &None), "\n    Question: why\n\n    Context: \n");
}

#[test]
fn history_is_rendered_for_the_planner() {
    let history = vec![
        (Action::RunCommand { action_idx: 0, command: "ls".to_string() }, Some("a b".to_string())),
        (Action::DeleteFile { action_idx: 1, path: "x".to_string() }, None),
    ];
    assert_eq!(
        history_context(&history),
        "action: RunCommand { action_idx: 0, command: \"ls\" }, output: a b\\nDeleteFile { action_idx: 1, path: \"x\" }"
    );
    assert_eq!(
        history_prompt("q?", &history),
        "\n        Question: q?\n\n        Previous executed actions (action and its output): action: RunCommand { action_idx: 0, command: \"ls\" }, output: a b\\nDeleteFile { action_idx: 1, path: \"x\" }\n    "
    );
}

#[test]
fn plan_prompt_puts_parts_in_place() {
    let p = plan_prompt("[]", "build it", &None);
    assert!(p.starts_with("Based on the following instruction and context, create a step-by-step plan"));
    assert!(p.contains("\"Previous executed actions (action and its output):\" []\n\n        \"Instruction:\" build it"));
    assert!(p.contains("\"Context:\" No context provided."));
    assert!(p.ends_with("Respond ONLY with a valid JSON object"));
    let q = plan_prompt("[]", "x", &Some("ctx".to_string()));
    assert!(q.contains("\"Context:\" ctx\n\n"));
}

#[test]
fn url_sources_are_told_from_files() {
    assert!(is_url_source("http://localhost/a"));
    assert!(is_url_source("https://example.com"));
    assert!(!is_url_source("httpx://no"));
    assert!(!is_url_source("notes.txt"));
    assert!(!is_url_source(""));
}

#[test]
fn split_at_first_colon() {
    assert_eq!(split_at_colon("X-Key: {{api_key}}"), Some(("X-Key", " {{api_key}}")));
    assert_eq!(split_at_colon("a:b:c"), Some(("a", "b:c")));
    assert_eq!(split_at_colon("none"), None);
}

#[test]
fn auth_follows_configuration() {
    assert_eq!(request_auth(&None, &Some("X: y".to_string())), Auth::Anonymous);
    assert_eq!(request_auth(&Some("k".to_string()), &None), Auth::Bearer("k".to_string()));
    assert_eq!(
        request_auth(&Some("k".to_string()), &Some(" X-Api-Key : Token {{api_key}}".to_string())),
        Auth::Header("X-Api-Key".to_string(), " Token k".to_string())
    );
    assert_eq!(
        request_auth(&Some("k".to_string()), &Some("no colon".to_string())),
        Auth::MalformedHeader("k".to_string())
    );
}

#[test]
fn search_url_encodes_query() {
    assert_eq!(
        search_url("rust lang & verus"),
        "https://api.duckduckgo.com/?q=rust%20lang%20%26%20verus&format=json&pretty=1"
    );
}

#[test]
fn command_outcome_by_status() {
    assert_eq!(command_outcome(true, "  out\n", "exit status: 0"), Ok(Some("out".to_string())));
    assert_eq!(
        command_outcome(false, "partial", "exit status: 2"),
        Err("Command failed with status: exit status: 2".to_string())
    );
}

#[test]
fn session_helpers() {
    assert!(is_exit("exit\n"));
    assert!(is_exit("  EXIT "));
    assert!(!is_exit("exits"));
    let conversation = vec!["User: a\\nLLM: b".to_string(), "User: c\\nLLM: d".to_string()];
    assert_eq!(
        session_prompt("next?", &conversation),
        "next?\\nConversation History:\\nUser: a\\nLLM: b\\nUser: c\\nLLM: d"
    );
    assert_eq!(session_prompt("first", &Vec::new()), "first\\nConversation History:\\n");
    assert_eq!(session_entry("q", "a"), "User: q\\nLLM: a");
}

#[test]
fn home_is_expanded_only_for_tilde_paths() {
    assert_eq!(expand_home("~/notes.txt", Some("/home/u")), Ok("/home/u/notes.txt".to_string()));
    assert_eq!(expand_home("~/a/b", Some("/home/u/")), Ok("/home/u/a/b".to_string()));
    assert_eq!(expand_home("/etc/hosts", None), Ok("/etc/hosts".to_string()));
    assert_eq!(expand_home("~user/x", None), Ok("~user/x".to_string()));
    assert_eq!(expand_home("~/x", None), Err("environment variable not found".to_string()));
}
