use cliff::{Action, Choice, Command, Event, Executor, Plan, Stage};

fn run_command(idx: u32, command: &str) -> Action {
    Action::RunCommand { action_idx: idx, command: command.to_string() }
}

fn plan(steps: Vec<Action>) -> Plan {
    Plan { thought: None, steps }
}

#[test]
fn failed_command_records_error_and_asks_for_recovery_once() {
    let mut ex = Executor::new(plan(vec![run_command(0, "exit 3")]), Vec::new(), false);
    assert!(matches!(ex.step(Event::Proceed), Command::Confirm));
    assert!(matches!(ex.current_action(), Some(Action::RunCommand { .. })));
    assert!(matches!(ex.step(Event::Answer(Choice::Yes)), Command::Perform));
    let status = "Command failed with status: exit status: 3".to_string();
    let cmd = ex.step(Event::Outcome(Err(status.clone())));
    match cmd {
        Command::RequestPlan(instruction, sources) => {
            assert!(instruction.contains("RunCommand { action_idx: 0, command: \"exit 3\" }"));
            assert!(instruction.contains(&status));
            assert!(sources.is_empty());
        }
        other => panic!("expected a recovery request, got {:?}", other),
    }
    assert_eq!(ex.history.len(), 1);
    assert!(matches!(&ex.history[0].0, Action::RunCommand { command, .. } if command == "exit 3"));
    assert_eq!(ex.history[0].1.as_deref(), Some("ERROR: Command failed with status: exit status: 3"));
    assert!(matches!(ex.stage, Stage::Recovering));
    // the recovery plan is empty: the run ends without another planner call
    assert!(matches!(ex.step(Event::PlanReply(Ok(plan(vec![])))), Command::Finished));
    assert_eq!(ex.history.len(), 1);
}

#[test]
fn skipped_step_adds_no_history() {
    let mut ex = Executor::new(
        plan(vec![run_command(0, "ls"), run_command(1, "pwd")]),
        Vec::new(),
        false,
    );
    assert!(matches!(ex.step(Event::Proceed), Command::Confirm));
    assert!(matches!(ex.step(Event::Answer(Choice::No)), Command::Skipped));
    assert!(ex.history.is_empty());
    assert!(matches!(ex.step(Event::Proceed), Command::Confirm));
    assert!(matches!(ex.current_action(), Some(Action::RunCommand { action_idx: 1, .. })));
    assert!(matches!(ex.step(Event::Answer(Choice::Yes)), Command::Perform));
    assert!(matches!(ex.step(Event::Outcome(Ok(Some("/tmp".to_string())))), Command::Finished));
    assert_eq!(ex.history.len(), 1);
    assert_eq!(ex.history[0].1.as_deref(), Some("/tmp"));
}

#[test]
fn all_answer_stays_on_for_later_and_nested_steps() {
    let sub = Action::AskLlmForPlan {
        action_idx: 1,
        instruction: "do more".to_string(),
        context_sources: vec!["notes.txt".to_string()],
    };
    let mut ex = Executor::new(plan(vec![run_command(0, "ls"), sub, run_command(2, "pwd")]), Vec::new(), false);
    assert!(matches!(ex.step(Event::Proceed), Command::Confirm));
    assert!(matches!(ex.step(Event::Answer(Choice::All)), Command::Perform));
    assert!(ex.auto_confirm);
    match ex.step(Event::Outcome(Ok(None))) {
        Command::RequestPlan(instruction, sources) => {
            assert_eq!(instruction, "do more");
            assert_eq!(sources, vec!["notes.txt".to_string()]);
        }
        other => panic!("expected a sub-plan request, got {:?}", other),
    }
    // nested steps run without asking
    assert!(matches!(ex.step(Event::PlanReply(Ok(plan(vec![run_command(0, "echo hi")])))), Command::Perform));
    assert!(matches!(ex.current_action(), Some(Action::RunCommand { command, .. }) if command == "echo hi"));
    // closing the sub-plan records its step, then the outer plan goes on
    assert!(matches!(ex.step(Event::Outcome(Ok(Some("hi".to_string())))), Command::Perform));
    assert_eq!(ex.history.len(), 3);
    assert!(matches!(&ex.history[2].0, Action::AskLlmForPlan { .. }));
    assert_eq!(ex.history[2].1, None);
    assert!(matches!(ex.step(Event::Outcome(Ok(None))), Command::Finished));
    assert_eq!(ex.history.len(), 4);
    assert!(matches!(ex.stage, Stage::Done));
}

#[test]
fn delegated_reply_of_wrong_kind_is_not_performed() {
    let ask = Action::AskLlmToCreateFile { action_idx: 0, path: "a.txt".to_string() };
    let mut ex = Executor::new(plan(vec![ask]), Vec::new(), true);
    match ex.step(Event::Proceed) {
        Command::RequestAction(prompt) => {
            assert!(prompt.starts_with("Generate a JSON object for a CreateFile action with path: 'a.txt'"));
        }
        other => panic!("expected an action request, got {:?}", other),
    }
    let wrong = Action::DeleteFile { action_idx: 0, path: "a.txt".to_string() };
    let cmd = ex.step(Event::ActionReply(Ok(wrong)));
    assert!(matches!(cmd, Command::RequestPlan(..)));
    assert!(ex.current_action().is_none());
    assert_eq!(ex.history.len(), 1);
    assert_eq!(
        ex.history[0].1.as_deref(),
        Some("ERROR: LLM did not return a CreateFile action, but instead: DeleteFile { action_idx: 0, path: \"a.txt\" }")
    );
}

#[test]
fn delegated_reply_of_right_kind_is_performed_and_recorded_under_the_step() {
    let ask = Action::AskLlmToReplaceFileLines { action_idx: 4, path: "f".to_string() };
    let mut ex = Executor::new(plan(vec![ask]), Vec::new(), true);
    assert!(matches!(ex.step(Event::Proceed), Command::RequestAction(_)));
    let reply = Action::ReplaceFileLines {
        action_idx: 0,
        path: "f".to_string(),
        from_line_idx: 0,
        until_line_idx: 0,
        replacement_lines: "x".to_string(),
    };
    assert!(matches!(ex.step(Event::ActionReply(Ok(reply))), Command::Perform));
    assert!(matches!(ex.current_action(), Some(Action::ReplaceFileLines { .. })));
    assert!(matches!(ex.step(Event::Outcome(Ok(None))), Command::Finished));
    assert!(matches!(&ex.history[0].0, Action::AskLlmToReplaceFileLines { action_idx: 4, .. }));
}

#[test]
fn recovery_plan_replaces_remaining_steps() {
    let mut ex = Executor::new(
        plan(vec![run_command(0, "false"), run_command(1, "never")]),
        Vec::new(),
        true,
    );
    assert!(matches!(ex.step(Event::Proceed), Command::Perform));
    assert!(matches!(ex.step(Event::Outcome(Err("boom".to_string()))), Command::RequestPlan(..)));
    assert!(matches!(ex.step(Event::PlanReply(Ok(plan(vec![run_command(5, "true")])))), Command::Perform));
    assert!(matches!(ex.current_action(), Some(Action::RunCommand { action_idx: 5, .. })));
    assert!(matches!(ex.step(Event::Outcome(Ok(None))), Command::Finished));
    assert_eq!(ex.history.len(), 2);
}

#[test]
fn failed_recovery_at_top_level_aborts() {
    let mut ex = Executor::new(plan(vec![run_command(0, "false")]), Vec::new(), true);
    ex.step(Event::Proceed);
    ex.step(Event::Outcome(Err("boom".to_string())));
    match ex.step(Event::PlanReply(Err("offline".to_string()))) {
        Command::Failed(msg) => {
            assert_eq!(msg, "Failed to get recovery plan from LLM after action failure: offline");
        }
        other => panic!("expected failure, got {:?}", other),
    }
    assert!(matches!(ex.stage, Stage::Aborted));
    assert!(matches!(ex.step(Event::Proceed), Command::Ignored));
}

#[test]
fn failed_recovery_in_sub_plan_ends_the_run() {
    let sub = Action::AskLlmForPlan { action_idx: 0, instruction: "i".to_string(), context_sources: vec![] };
    let mut ex = Executor::new(plan(vec![sub, run_command(1, "later")]), Vec::new(), true);
    assert!(matches!(ex.step(Event::Proceed), Command::RequestPlan(..)));
    assert!(matches!(ex.step(Event::PlanReply(Ok(plan(vec![run_command(0, "false")])))), Command::Perform));
    assert!(matches!(ex.step(Event::Outcome(Err("boom".to_string()))), Command::RequestPlan(..)));
    match ex.step(Event::PlanReply(Err("offline".to_string()))) {
        Command::Failed(msg) => {
            assert_eq!(msg, "Failed to get recovery plan from LLM after action failure: offline");
        }
        other => panic!("expected failure, got {:?}", other),
    }
    assert!(matches!(ex.stage, Stage::Aborted));
    assert_eq!(ex.history.len(), 1);
    assert_eq!(ex.history[0].1.as_deref(), Some("ERROR: boom"));
}

#[test]
fn failed_sub_plan_request_fails_the_step() {
    let sub = Action::AskLlmForPlan { action_idx: 0, instruction: "i".to_string(), context_sources: vec![] };
    let mut ex = Executor::new(plan(vec![sub]), Vec::new(), true);
    ex.step(Event::Proceed);
    assert!(matches!(ex.step(Event::PlanReply(Err("bad json".to_string()))), Command::RequestPlan(..)));
    assert_eq!(ex.history[0].1.as_deref(), Some("ERROR: Failed to get sub-plan from LLM: bad json"));
}

#[test]
fn empty_plan_finishes_at_once() {
    let mut ex = Executor::new(plan(vec![]), Vec::new(), false);
    assert!(matches!(ex.step(Event::Proceed), Command::Finished));
    assert!(ex.history.is_empty());
}

#[test]
fn event_out_of_turn_is_ignored() {
    let mut ex = Executor::new(plan(vec![run_command(0, "ls")]), Vec::new(), false);
    assert!(matches!(ex.step(Event::Outcome(Ok(None))), Command::Ignored));
    assert!(matches!(ex.stage, Stage::Idle));
    assert!(ex.history.is_empty());
}

#[test]
fn history_passed_in_is_kept() {
    let earlier = vec![(run_command(9, "old"), Some("out".to_string()))];
    let mut ex = Executor::new(plan(vec![run_command(0, "new")]), earlier, true);
    ex.step(Event::Proceed);
    ex.step(Event::Outcome(Ok(None)));
    assert_eq!(ex.history.len(), 2);
    assert!(matches!(&ex.history[0].0, Action::RunCommand { action_idx: 9, .. }));
}
