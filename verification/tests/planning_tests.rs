use orcascore::chat::MessageContent;
use orcascore::domain::Agent;
use orcascore::planning::{AgentRow, PlanAction, PlanEvent, PlanRun, PlanningAgent};

fn worker(id: i32, name: &str) -> Agent {
    Agent {
        id,
        name: name.to_string(),
        model_name: "orca-sonnet-4".to_string(),
        agent_prompt: "Does the work.".to_string(),
        system_role: None,
    }
}

fn planner(pool: Vec<Agent>) -> PlanningAgent {
    PlanningAgent {
        task_id: 7,
        agent_prompt: "You are the planning agent.".to_string(),
        model_name: "orca-sonnet-4".to_string(),
        available_agents: pool,
    }
}

/// Drive a fresh run through its two opening progress events up to the
/// first chat call, returning the run.
fn run_to_first_chat(agent: &PlanningAgent, with_fallback: bool) -> PlanRun {
    let mut run = if with_fallback {
        agent.plan_task_with_fallback("Ship the report", &Some("All of it".to_string()))
    } else {
        agent.plan_task("Ship the report", &Some("All of it".to_string()))
    };
    match run.step(PlanEvent::Begin) {
        PlanAction::Emit(ev) => {
            assert_eq!(ev.status, "analyzing");
            assert_eq!(ev.message, "Initializing AI planning agent...");
            assert_eq!(ev.progress_permille, 100);
            assert_eq!(ev.current_step.unwrap(), "Initialization");
        },
        _ => panic!("expected the initialization event"),
    }
    match run.step(PlanEvent::EmitOk) {
        PlanAction::Emit(ev) => {
            assert_eq!(ev.status, "planning");
            assert_eq!(ev.progress_permille, 200);
        },
        _ => panic!("expected the analysis event"),
    }
    match run.step(PlanEvent::EmitOk) {
        PlanAction::CallChat { model, messages, system_prompt, max_tokens, tools } => {
            assert_eq!(model, "orca-sonnet-4");
            assert_eq!(messages.len(), 1);
            assert_eq!(max_tokens, 4096);
            assert_eq!(tools.len(), 1);
            assert!(tools[0].contains("create_subtask"));
            assert!(system_prompt.contains("Ship the report"));
            assert!(system_prompt.contains("**Task ID**: 7"));
        },
        _ => panic!("expected the first chat call"),
    }
    run
}

#[test]
fn missing_planning_agent_fails_construction() {
    match PlanningAgent::new(7, None, Vec::new()) {
        Err(e) => assert_eq!(
            e,
            "Planning agent not found in database. Please ensure a planning agent exists with system_role = 'planning'."
        ),
        Ok(_) => panic!("construction should fail without a planning agent"),
    }
}

#[test]
fn unreadable_worker_fields_fall_back_to_defaults() {
    let planning_row = AgentRow {
        id: Some(1),
        name: Some("Planner".to_string()),
        model_name: Some("orca-sonnet-4".to_string()),
        agent_prompt: Some("Plan.".to_string()),
    };
    let rows = vec![AgentRow { id: None, name: None, model_name: None, agent_prompt: None }];
    let agent = PlanningAgent::new(7, Some(planning_row), rows).unwrap();
    assert_eq!(agent.available_agents.len(), 1);
    assert_eq!(agent.available_agents[0].id, 0);
    assert_eq!(agent.available_agents[0].name, "Unknown");
    assert_eq!(agent.available_agents[0].model_name, "unknown");
    assert_eq!(agent.available_agents[0].agent_prompt, "");
    assert!(agent.available_agents[0].system_role.is_none());
}

#[test]
fn end_turn_on_first_turn_succeeds_with_zero_subtasks() {
    let agent = planner(vec![worker(1, "A")]);
    let mut run = run_to_first_chat(&agent, false);
    let reply = "{\"stop_reason\":\"end_turn\",\"content\":[]}";
    match run.step(PlanEvent::ChatOk(reply.to_string())) {
        PlanAction::Emit(ev) => {
            assert_eq!(ev.status, "finalizing");
            assert_eq!(ev.progress_permille, 900);
        },
        _ => panic!("expected the finalizing event"),
    }
    match run.step(PlanEvent::EmitOk) {
        PlanAction::Finish(res) => {
            assert!(res.success);
            assert_eq!(res.subtasks_created, 0);
            assert_eq!(res.message, "Successfully created 0 subtasks using AI planning agent");
        },
        _ => panic!("expected the run to finish"),
    }
    assert!(run.is_over());
}

#[test]
fn valid_tool_call_creates_a_subtask() {
    let agent = planner(vec![worker(1, "A")]);
    let mut run = run_to_first_chat(&agent, false);
    let reply = "{\"stop_reason\":\"tool_use\",\"content\":[{\"type\":\"tool_use\",\"id\":\"t1\",\"name\":\"create_subtask\",\"input\":{\"title\":\"Draft\",\"description\":\"Write it\",\"agent_id\":1}}]}";
    match run.step(PlanEvent::ChatOk(reply.to_string())) {
        PlanAction::InsertSubtask { task_id, title, description, agent_id } => {
            assert_eq!(task_id, 7);
            assert_eq!(title, "Draft");
            assert_eq!(description, "Write it");
            assert_eq!(agent_id, 1);
        },
        _ => panic!("expected a subtask insertion"),
    }
    match run.step(PlanEvent::InsertOk) {
        PlanAction::Emit(ev) => {
            assert_eq!(ev.status, "creating");
            assert_eq!(ev.message, "Created subtask 1 of estimated 3-7...");
            assert_eq!(ev.progress_permille, 320);
        },
        _ => panic!("expected the per-subtask event"),
    }
    match run.step(PlanEvent::EmitOk) {
        PlanAction::CallChat { messages, .. } => {
            assert_eq!(messages.len(), 3);
            assert_eq!(messages[1].role, "assistant");
            assert_eq!(messages[2].role, "user");
            match &messages[2].content {
                MessageContent::Results(rs) => {
                    assert_eq!(rs.len(), 1);
                    assert_eq!(rs[0].tool_use_id, "t1");
                    assert!(!rs[0].is_error);
                    assert_eq!(rs[0].content, "Successfully created subtask: 'Draft'");
                },
                _ => panic!("expected tool results in the feedback turn"),
            }
        },
        _ => panic!("expected the next chat call"),
    }
    let done = "{\"stop_reason\":\"end_turn\",\"content\":[]}";
    match run.step(PlanEvent::ChatOk(done.to_string())) {
        PlanAction::Emit(_) => {},
        _ => panic!("expected the finalizing event"),
    }
    match run.step(PlanEvent::EmitOk) {
        PlanAction::Finish(res) => {
            assert!(res.success);
            assert_eq!(res.subtasks_created, 1);
            assert_eq!(res.message, "Successfully created 1 subtasks using AI planning agent");
        },
        _ => panic!("expected the run to finish"),
    }
}

#[test]
fn unknown_agent_id_yields_error_result_and_run_continues() {
    let agent = planner(vec![worker(1, "A")]);
    let mut run = run_to_first_chat(&agent, false);
    let reply = "{\"stop_reason\":\"tool_use\",\"content\":[{\"type\":\"tool_use\",\"id\":\"t1\",\"name\":\"create_subtask\",\"input\":{\"title\":\"Draft\",\"description\":\"Write it\",\"agent_id\":99}}]}";
    match run.step(PlanEvent::ChatOk(reply.to_string())) {
        PlanAction::CallChat { messages, .. } => {
            assert_eq!(messages.len(), 3);
            match &messages[2].content {
                MessageContent::Results(rs) => {
                    assert_eq!(rs.len(), 1);
                    assert_eq!(rs[0].tool_use_id, "t1");
                    assert!(rs[0].is_error);
                    assert_eq!(rs[0].content, "Tool execution error: Invalid agent_id: 99");
                },
                _ => panic!("expected tool results in the feedback turn"),
            }
        },
        _ => panic!("the run should continue with the next chat call"),
    }
    assert!(!run.is_over());
}

#[test]
fn missing_title_yields_error_result() {
    let agent = planner(vec![worker(1, "A")]);
    let mut run = run_to_first_chat(&agent, false);
    let reply = "{\"stop_reason\":\"tool_use\",\"content\":[{\"type\":\"tool_use\",\"id\":\"t1\",\"name\":\"create_subtask\",\"input\":{\"description\":\"Write it\",\"agent_id\":1}}]}";
    match run.step(PlanEvent::ChatOk(reply.to_string())) {
        PlanAction::CallChat { messages, .. } => match &messages[2].content {
            MessageContent::Results(rs) => {
                assert!(rs[0].is_error);
                assert_eq!(rs[0].content, "Tool execution error: Missing title");
            },
            _ => panic!("expected tool results in the feedback turn"),
        },
        _ => panic!("the run should continue with the next chat call"),
    }
}

#[test]
fn tool_results_keep_request_order() {
    let agent = planner(vec![worker(1, "A")]);
    let mut run = run_to_first_chat(&agent, false);
    let reply = "{\"stop_reason\":\"tool_use\",\"content\":[{\"type\":\"text\",\"text\":\"thinking\"},{\"type\":\"tool_use\",\"id\":\"t1\",\"name\":\"other_tool\",\"input\":{}},{\"type\":\"tool_use\",\"id\":\"t2\",\"name\":\"create_subtask\",\"input\":{\"title\":\"T\",\"description\":\"D\",\"agent_id\":99}}]}";
    match run.step(PlanEvent::ChatOk(reply.to_string())) {
        PlanAction::CallChat { messages, .. } => match &messages[2].content {
            MessageContent::Results(rs) => {
                assert_eq!(rs.len(), 2);
                assert_eq!(rs[0].tool_use_id, "t1");
                assert_eq!(rs[0].content, "Unknown tool: other_tool");
                assert!(rs[0].is_error);
                assert_eq!(rs[1].tool_use_id, "t2");
                assert_eq!(rs[1].content, "Tool execution error: Invalid agent_id: 99");
                assert!(rs[1].is_error);
            },
            _ => panic!("expected tool results in the feedback turn"),
        },
        _ => panic!("the run should continue with the next chat call"),
    }
}

#[test]
fn failed_insertion_becomes_error_result() {
    let agent = planner(vec![worker(1, "A")]);
    let mut run = run_to_first_chat(&agent, false);
    let reply = "{\"stop_reason\":\"tool_use\",\"content\":[{\"type\":\"tool_use\",\"id\":\"t1\",\"name\":\"create_subtask\",\"input\":{\"title\":\"Draft\",\"description\":\"Write it\",\"agent_id\":1}}]}";
    match run.step(PlanEvent::ChatOk(reply.to_string())) {
        PlanAction::InsertSubtask { .. } => {},
        _ => panic!("expected a subtask insertion"),
    }
    match run.step(PlanEvent::InsertFailed("database is locked".to_string())) {
        PlanAction::CallChat { messages, .. } => match &messages[2].content {
            MessageContent::Results(rs) => {
                assert!(rs[0].is_error);
                assert_eq!(
                    rs[0].content,
                    "Tool execution error: Failed to create subtask: database is locked"
                );
            },
            _ => panic!("expected tool results in the feedback turn"),
        },
        _ => panic!("the run should continue with the next chat call"),
    }
}

#[test]
fn run_stops_at_twenty_round_trips() {
    let agent = planner(vec![worker(1, "A")]);
    let mut run = run_to_first_chat(&agent, false);
    let mut chat_calls = 1;
    let reply = "{\"stop_reason\":\"tool_use\",\"content\":[{\"type\":\"tool_use\",\"id\":\"t\",\"name\":\"other_tool\",\"input\":{}}]}";
    loop {
        match run.step(PlanEvent::ChatOk(reply.to_string())) {
            PlanAction::CallChat { .. } => {
                chat_calls += 1;
            },
            PlanAction::Fail(msg) => {
                assert_eq!(msg, "Planning exceeded maximum iterations (20)");
                break;
            },
            _ => panic!("expected only chat calls or the cap failure"),
        }
        assert!(chat_calls <= 20, "more than twenty chat round-trips");
    }
    assert_eq!(chat_calls, 20);
    assert!(run.is_over());
}

#[test]
fn unexpected_stop_reason_fails_the_run() {
    let agent = planner(vec![worker(1, "A")]);
    let mut run = run_to_first_chat(&agent, false);
    let reply = "{\"stop_reason\":\"max_tokens\",\"content\":[]}";
    match run.step(PlanEvent::ChatOk(reply.to_string())) {
        PlanAction::Fail(msg) => assert_eq!(msg, "Unexpected stop reason: max_tokens"),
        _ => panic!("expected the run to fail"),
    }
}

#[test]
fn tool_use_without_tool_calls_fails_the_run() {
    let agent = planner(vec![worker(1, "A")]);
    let mut run = run_to_first_chat(&agent, false);
    let reply =
        "{\"stop_reason\":\"tool_use\",\"content\":[{\"type\":\"text\",\"text\":\"hmm\"}]}";
    match run.step(PlanEvent::ChatOk(reply.to_string())) {
        PlanAction::Fail(msg) => {
            assert_eq!(msg, "Agent requested tool_use but provided no tool calls")
        },
        _ => panic!("expected the run to fail"),
    }
}

#[test]
fn unparseable_response_fails_the_run() {
    let agent = planner(vec![worker(1, "A")]);
    let mut run = run_to_first_chat(&agent, false);
    match run.step(PlanEvent::ChatOk("not json at all".to_string())) {
        PlanAction::Fail(msg) => {
            assert!(msg.starts_with("Failed to parse model response: "), "got: {}", msg)
        },
        _ => panic!("expected the run to fail"),
    }
}

#[test]
fn emit_failure_fails_the_run() {
    let agent = planner(vec![worker(1, "A")]);
    let mut run = agent.plan_task("T", &None);
    match run.step(PlanEvent::Begin) {
        PlanAction::Emit(_) => {},
        _ => panic!("expected the initialization event"),
    }
    match run.step(PlanEvent::EmitFailed("no listener".to_string())) {
        PlanAction::Fail(msg) => assert_eq!(msg, "Failed to emit progress: no listener"),
        _ => panic!("expected the run to fail"),
    }
}

#[test]
fn transport_failure_triggers_round_robin_fallback() {
    let agent = planner(vec![worker(4, "A"), worker(9, "B")]);
    let mut run = run_to_first_chat(&agent, true);
    match run.step(PlanEvent::ChatFailed("connection refused".to_string())) {
        PlanAction::Emit(ev) => {
            assert_eq!(ev.status, "fallback");
            assert_eq!(ev.progress_permille, 300);
        },
        _ => panic!("expected the fallback notice"),
    }
    assert_eq!(run.last_error().clone().unwrap(), "connection refused");
    let expected = [
        ("Research and plan approach", 4, 466u32),
        ("Execute primary deliverables", 9, 633),
        ("Review and finalize output", 4, 800),
    ];
    let mut next = run.step(PlanEvent::EmitOk);
    for (i, (title, agent_id, permille)) in expected.iter().enumerate() {
        match next {
            PlanAction::InsertSubtask { task_id, title: t, agent_id: a, .. } => {
                assert_eq!(task_id, 7);
                assert_eq!(&t, title);
                assert_eq!(a, *agent_id);
            },
            _ => panic!("expected fallback insertion {}", i),
        }
        match run.step(PlanEvent::InsertOk) {
            PlanAction::Emit(ev) => {
                assert_eq!(ev.status, "fallback_creating");
                assert_eq!(ev.progress_permille, *permille);
                assert_eq!(ev.message, format!("Fallback: Created subtask {}/3", i + 1));
            },
            _ => panic!("expected the fallback progress event {}", i),
        }
        next = run.step(PlanEvent::EmitOk);
    }
    match next {
        PlanAction::Finish(res) => {
            assert!(res.success);
            assert_eq!(res.subtasks_created, 3);
            assert_eq!(
                res.message,
                "Created 3 subtasks using fallback planning (AI agent unavailable)"
            );
        },
        _ => panic!("expected the fallback result"),
    }
}

#[test]
fn fallback_with_empty_pool_fails() {
    let agent = planner(Vec::new());
    let mut run = run_to_first_chat(&agent, true);
    match run.step(PlanEvent::ChatFailed("boom".to_string())) {
        PlanAction::Emit(_) => {},
        _ => panic!("expected the fallback notice"),
    }
    match run.step(PlanEvent::EmitOk) {
        PlanAction::Fail(msg) => assert_eq!(msg, "No agents available for fallback planning"),
        _ => panic!("expected the run to fail"),
    }
}

#[test]
fn fallback_insert_failure_is_fatal() {
    let agent = planner(vec![worker(1, "A")]);
    let mut run = run_to_first_chat(&agent, true);
    match run.step(PlanEvent::ChatFailed("boom".to_string())) {
        PlanAction::Emit(_) => {},
        _ => panic!("expected the fallback notice"),
    }
    match run.step(PlanEvent::EmitOk) {
        PlanAction::InsertSubtask { .. } => {},
        _ => panic!("expected a fallback insertion"),
    }
    match run.step(PlanEvent::InsertFailed("disk full".to_string())) {
        PlanAction::Fail(msg) => assert_eq!(msg, "Failed to create subtask: disk full"),
        _ => panic!("expected the run to fail"),
    }
}

#[test]
fn tool_schema_names_the_tool() {
    let agent = planner(vec![worker(1, "A")]);
    let schemas = agent.get_tool_schemas();
    assert_eq!(schemas.len(), 1);
    assert!(schemas[0].contains("\"name\":\"create_subtask\""));
    assert!(schemas[0].contains("\"required\":[\"task_id\",\"title\",\"description\",\"agent_id\"]"));
}

#[test]
fn system_prompt_lists_worker_agents() {
    let agent = planner(vec![worker(4, "Researcher"), worker(9, "Writer")]);
    let prompt = agent.build_system_prompt("Ship it", &None);
    assert!(prompt.starts_with("You are the planning agent."));
    assert!(prompt.contains("**Agent ID 4: Researcher (Model: orca-sonnet-4)**"));
    assert!(prompt.contains("**Agent ID 9: Writer (Model: orca-sonnet-4)**"));
    assert!(prompt.contains("**Description**: No description provided"));
}
