use cliff::{check_delegated, decimal, recovery_request, Action, DelegatedKind, Plan};

#[test]
fn decimal_writes_digits() {
    assert_eq!(decimal(0), "0");
    assert_eq!(decimal(7), "7");
    assert_eq!(decimal(42), "42");
    assert_eq!(decimal(1005), "1005");
    assert_eq!(decimal(u64::MAX), "18446744073709551615");
}

#[test]
fn describe_actions() {
    let a = Action::CreateFile { action_idx: 3, path: "a.sh".to_string(), content: "echo".to_string() };
    assert_eq!(a.describe(), "3. Create file 'a.sh' with content:\necho");
    let a = Action::MoveFile { action_idx: 1, source: "x".to_string(), destination: "y".to_string() };
    assert_eq!(a.describe(), "1. Move file from 'x' to 'y'");
    let a = Action::AskLlmForPlan {
        action_idx: 2,
        instruction: "go".to_string(),
        context_sources: vec!["a.txt".to_string(), "https://e.org".to_string()],
    };
    assert_eq!(
        a.describe(),
        "2. Ask LLM for sub-plan:\n  Instruction: go\n  Context Sources: [\"a.txt\", \"https://e.org\"]"
    );
    let a = Action::CheckPathExists { action_idx: 0, path: "/tmp".to_string() };
    assert_eq!(a.describe(), "0. Check if path exists '/tmp'");
}

#[test]
fn long_ascii_contents_are_cut_to_fifty_bytes() {
    let long = "x".repeat(60);
    let a = Action::AppendToFile { action_idx: 0, path: "p".to_string(), content: long };
    assert_eq!(a.describe(), format!("0. Append to file 'p' with content: '{}...'", "x".repeat(50)));
    let exact = "y".repeat(50);
    let a = Action::ReplaceFileLines {
        action_idx: 1,
        path: "p".to_string(),
        from_line_idx: 2,
        until_line_idx: 3,
        replacement_lines: exact.clone(),
    };
    assert_eq!(a.describe(), format!("1. Replace lines 2 to 3 in file 'p' with content: '{}'", exact));
}

#[test]
fn display_plan_with_thought_and_steps() {
    let p = Plan {
        thought: Some("Create a hello world script and run it".to_string()),
        steps: vec![
            Action::RunCommand { action_idx: 1, command: "bash hello.sh".to_string() },
            Action::AskUser { action_idx: 2, question: "Script executed.".to_string() },
        ],
    };
    assert_eq!(
        p.display(),
        "\n--- Proposed Plan ---\nThought: Create a hello world script and run it\n1. Run command: `bash hello.sh`\n2. Ask user: 'Script executed.'\n--------------------\n"
    );
}

#[test]
fn display_empty_plan() {
    let p = Plan { thought: None, steps: vec![] };
    assert_eq!(p.display(), "\n--- Proposed Plan ---\nNo actions planned.\n");
}

#[test]
fn check_delegated_accepts_matching_kind() {
    let a = Action::OverwriteFileContents { action_idx: 0, path: "p".to_string(), content: "c".to_string() };
    assert!(matches!(check_delegated(DelegatedKind::OverwriteFileContents, a), Ok(Action::OverwriteFileContents { .. })));
}

#[test]
fn check_delegated_names_the_wrong_kind() {
    let a = Action::ReadFile { action_idx: 5, path: "p".to_string() };
    let r = check_delegated(DelegatedKind::ReplaceFileLines, a);
    assert_eq!(r.unwrap_err(), "LLM did not return a ReplaceFileLines action, but instead: ReadFile { action_idx: 5, path: \"p\" }");
}

#[test]
fn delegation_prompts_name_the_path() {
    let p = DelegatedKind::OverwriteFileContents.prompt("src/x.rs");
    assert!(p.starts_with("Generate a JSON object for an OverwriteFileContents action with path: 'src/x.rs'."));
    assert!(p.ends_with("Generated `content` will be used LITERALLY and will not be parsed further."));
}

#[test]
fn recovery_request_text() {
    let a = Action::RunCommand { action_idx: 0, command: "false".to_string() };
    assert_eq!(
        recovery_request(&a, "Command failed with status: exit status: 1"),
        "Action RunCommand { action_idx: 0, command: \"false\" } failed with error: Command failed with status: exit status: 1. The history of previous actions is provided. Generate a new plan to achieve the original objective, taking this failure into account."
    );
}

#[test]
fn overwrite_mismatch_uses_an() {
    let a = Action::DeleteFile { action_idx: 2, path: "x".to_string() };
    assert_eq!(
        check_delegated(DelegatedKind::OverwriteFileContents, a).unwrap_err(),
        "LLM did not return an OverwriteFileContents action, but instead: DeleteFile { action_idx: 2, path: \"x\" }"
    );
    let b = Action::ReadFile { action_idx: 0, path: "y".to_string() };
    assert!(check_delegated(DelegatedKind::CreateFile, b)
        .unwrap_err()
        .starts_with("LLM did not return a CreateFile action"));
}

#[test]
fn full_text_names_variant_and_every_field() {
    let a = Action::ReplaceFileLines {
        action_idx: 3,
        path: "f.txt".to_string(),
        from_line_idx: 1,
        until_line_idx: 2,
        replacement_lines: "x".repeat(60) + "\n\"q\"\t\\",
    };
    assert_eq!(
        a.full(),
        format!(
            "ReplaceFileLines {{ action_idx: 3, path: \"f.txt\", from_line_idx: 1, until_line_idx: 2, replacement_lines: \"{}\\n\\\"q\\\"\\t\\\\\" }}",
            "x".repeat(60)
        )
    );
    let p = Action::AskLlmForPlan {
        action_idx: 0,
        instruction: "go".to_string(),
        context_sources: vec!["a".to_string(), "b".to_string()],
    };
    assert_eq!(p.full(), "AskLlmForPlan { action_idx: 0, instruction: \"go\", context_sources: [\"a\", \"b\"] }");
    let e = Action::AskLlmForPlan { action_idx: 1, instruction: String::new(), context_sources: vec![] };
    assert_eq!(e.full(), "AskLlmForPlan { action_idx: 1, instruction: \"\", context_sources: [] }");
}

#[test]
fn actions_and_plans_compare_by_value() {
    let a = Action::RunCommand { action_idx: 1, command: "ls".to_string() };
    assert_eq!(a.clone(), a);
    let p = Plan { thought: None, steps: vec![a.clone()] };
    assert_eq!(p.clone(), p);
    assert_ne!(p, Plan { thought: Some("t".to_string()), steps: vec![a] });
}

#[test]
fn snippets_are_cut_at_fifty_bytes() {
    let accented = "é".repeat(30);
    let a = Action::AppendToFile { action_idx: 0, path: "p".to_string(), content: accented };
    assert_eq!(a.describe(), format!("0. Append to file 'p' with content: '{}...'", "é".repeat(25)));
    let straddling = format!("{}{}", "x".repeat(49), "😀");
    let b = Action::AppendToFile { action_idx: 0, path: "p".to_string(), content: straddling };
    assert_eq!(b.describe(), format!("0. Append to file 'p' with content: '{}...'", "x".repeat(49)));
    let exact = format!("{}{}", "x".repeat(48), "é");
    let c = Action::AppendToFile { action_idx: 0, path: "p".to_string(), content: exact.clone() };
    assert_eq!(c.describe(), format!("0. Append to file 'p' with content: '{}'", exact));
}

#[test]
fn quoted_fields_escape_nul_and_quotes_in_sources() {
    let a = Action::AskUser { action_idx: 0, question: "a\0b".to_string() };
    assert_eq!(a.full(), "AskUser { action_idx: 0, question: \"a\\0b\" }");
    let p = Action::AskLlmForPlan {
        action_idx: 1,
        instruction: "go".to_string(),
        context_sources: vec!["say \"hi\".txt".to_string()],
    };
    assert_eq!(
        p.describe(),
        "1. Ask LLM for sub-plan:\n  Instruction: go\n  Context Sources: [\"say \\\"hi\\\".txt\"]"
    );
}
