use std::collections::VecDeque;

use agent_workflow::agent::{Agent, AgentOutcome, ModelRequest, ModelResponse, ModelTransport};
use agent_workflow::agent_model::{AgentAction, AgentPhase};
use agent_workflow::calculator::CalculateTool;
use agent_workflow::config::AgentConfig;
use agent_workflow::error::{DecodeFailure, ToolError, TransportError, TransportErrorKind};
use agent_workflow::message::{Message, Role};
use agent_workflow::registry::ToolRegistry;
use agent_workflow::tool::ToolCallRequest;

/// A model that answers from a script and keeps what it was sent.
struct Scripted {
    replies: VecDeque<Result<ModelResponse, TransportError>>,
    seen: Vec<Vec<Message>>,
}

impl Scripted {
    fn new(replies: Vec<Result<ModelResponse, TransportError>>) -> Self {
        Scripted { replies: replies.into_iter().collect(), seen: Vec::new() }
    }
}

impl ModelTransport for Scripted {
    fn send(&mut self, request: &ModelRequest) -> Result<ModelResponse, TransportError> {
        self.seen.push(request.transcript.clone());
        self.replies.pop_front().unwrap_or_else(|| Ok(text("unscripted")))
    }
}

fn text(t: &str) -> ModelResponse {
    ModelResponse { text: t.to_string(), tool_calls: Vec::new() }
}

fn calls(t: &str, requests: Vec<(&str, &str)>) -> ModelResponse {
    ModelResponse {
        text: t.to_string(),
        tool_calls: requests
            .into_iter()
            .map(|(name, raw)| ToolCallRequest { name: name.to_string(), raw_args: raw.to_string() })
            .collect(),
    }
}

fn message(role: Role, name: &str, content: &str) -> Message {
    Message { role, name: name.to_string(), content: content.to_string() }
}

fn worker(max_turns: u32) -> Agent<CalculateTool> {
    let config = AgentConfig::new()
        .agent_name("The Working Agent")
        .system_prompt("You solve math problems.")
        .user_name("Worker")
        .temperature_millis(100)
        .max_tokens(4096)
        .max_turns(max_turns)
        .add_stop_word("<DONE>");
    Agent::new(config, ToolRegistry::new().register(CalculateTool))
}

#[test]
fn agent_output_is_cut_before_the_stop_marker() {
    let mut agent = worker(3);
    let mut model = Scripted::new(vec![Ok(text("result is 84 <DONE> trailing"))]);
    let out = agent.run(&mut model, "what is 2 * 42?");
    assert_eq!(out, AgentOutcome::Completed("result is 84 ".to_string()));
    assert_eq!(agent.phase(), AgentPhase::Completed);
    assert_eq!(model.seen.len(), 1);
}

#[test]
fn run_seeds_the_transcript_with_prompt_and_task() {
    let mut agent = worker(3);
    assert_eq!(agent.phase(), AgentPhase::Start);
    assert_eq!(agent.next_action(), AgentAction::Idle);
    assert_eq!(agent.start("the task"), AgentAction::AskModel);
    assert_eq!(agent.phase(), AgentPhase::AwaitingModel);
    assert_eq!(agent.turns_left(), 3);
    assert_eq!(
        agent.transcript(),
        &vec![
            message(Role::System, "The Working Agent", "You solve math problems."),
            message(Role::User, "Worker", "the task"),
        ]
    );
    let request = agent.request();
    assert_eq!(&request.transcript, agent.transcript());
    assert_eq!(request.temperature_millis, 100);
    assert_eq!(request.max_tokens, 4096);
    assert_eq!(request.tools.len(), 1);
    assert_eq!(request.tools[0].name, "calculate_tool");
    assert_eq!(agent.outcome(), None);
}

#[test]
fn end_to_end_calculation() {
    let mut agent = worker(4);
    let mut model = Scripted::new(vec![
        Ok(calls("Let me calculate.", vec![("calculate_tool", r#"{"expression": "2 + 2"}"#)])),
        Ok(text("The answer is 4 <DONE> and more")),
    ]);
    let out = agent.run(&mut model, "2 + 2");
    let output = match out {
        AgentOutcome::Completed(output) => output,
        other => panic!("unexpected outcome {:?}", other),
    };
    assert_eq!(output, "The answer is 4 ");
    assert!(output.contains("4"));
    assert!(!output.contains("<DONE>"));
    assert_eq!(model.seen.len(), 2);
    assert_eq!(
        model.seen[1],
        vec![
            message(Role::System, "The Working Agent", "You solve math problems."),
            message(Role::User, "Worker", "2 + 2"),
            message(Role::ToolResult, "calculate_tool", "4"),
        ]
    );
}

#[test]
fn text_without_marker_joins_the_transcript_and_the_run_goes_on() {
    let mut agent = worker(3);
    agent.start("task");
    assert_eq!(agent.on_response(text("thinking")), AgentAction::AskModel);
    assert_eq!(agent.turns_left(), 2);
    assert_eq!(agent.transcript().len(), 3);
    assert_eq!(agent.transcript()[2], message(Role::Assistant, "The Working Agent", "thinking"));
    assert_eq!(agent.on_response(text("more <DONE>")), AgentAction::Done);
    assert_eq!(agent.outcome(), Some(AgentOutcome::Completed("more ".to_string())));
}

#[test]
fn spent_budget_completes_with_the_last_text() {
    let mut agent = worker(2);
    let mut model = Scripted::new(vec![Ok(text("first")), Ok(text("second")), Ok(text("third"))]);
    let out = agent.run(&mut model, "task");
    assert_eq!(out, AgentOutcome::Completed("second".to_string()));
    assert_eq!(model.seen.len(), 2);
    assert_eq!(agent.turns_left(), 0);
}

#[test]
fn spent_budget_after_tool_calls_completes_with_the_last_text() {
    let mut agent = worker(1);
    let mut model = Scripted::new(vec![
        Ok(calls("calling", vec![("calculate_tool", r#"{"expression": "1 + 1"}"#)])),
        Ok(text("never asked")),
    ]);
    let out = agent.run(&mut model, "task");
    assert_eq!(out, AgentOutcome::Completed("calling".to_string()));
    assert_eq!(model.seen.len(), 1);
    assert_eq!(agent.transcript().len(), 3);
    assert_eq!(agent.transcript()[2], message(Role::ToolResult, "calculate_tool", "2"));
}

#[test]
fn no_budget_completes_without_asking() {
    let mut agent = worker(0);
    let mut model = Scripted::new(vec![Ok(text("never asked"))]);
    let out = agent.run(&mut model, "task");
    assert_eq!(out, AgentOutcome::Completed(String::new()));
    assert!(model.seen.is_empty());
}

#[test]
fn model_that_never_stops_is_cut_off() {
    let mut agent = worker(5);
    let replies = (0..100)
        .map(|_| Ok(calls("again", vec![("calculate_tool", r#"{"expression": "1"}"#)])))
        .collect();
    let mut model = Scripted::new(replies);
    let out = agent.run(&mut model, "task");
    assert_eq!(out, AgentOutcome::Completed("again".to_string()));
    assert_eq!(model.seen.len(), 5);
}

#[test]
fn transport_failure_fails_the_run() {
    let mut agent = worker(3);
    let error =
        TransportError { kind: TransportErrorKind::RateLimit, detail: "quota exceeded".to_string() };
    let mut model = Scripted::new(vec![Ok(text("thinking")), Err(error.clone()), Ok(text("late"))]);
    let out = agent.run(&mut model, "task");
    assert_eq!(out, AgentOutcome::Failed(error));
    assert_eq!(agent.phase(), AgentPhase::Failed);
    assert_eq!(model.seen.len(), 2);
}

#[test]
fn tool_failures_are_told_to_the_model() {
    let mut agent = worker(3);
    let mut model = Scripted::new(vec![
        Ok(calls(
            "",
            vec![
                ("calculate_tool", r#"{"expression": 7}"#),
                ("weather", r#"{"city": "Paris"}"#),
                ("calculate_tool", r#"{"expression": "2 +"}"#),
                ("calculate_tool", "not json"),
                ("calculate_tool", "{}"),
                ("calculate_tool", "[]"),
            ],
        )),
        Ok(text("sorry <DONE>")),
    ]);
    let out = agent.run(&mut model, "task");
    assert_eq!(out, AgentOutcome::Completed("sorry ".to_string()));
    let told: Vec<(&str, &str)> =
        model.seen[1][2..].iter().map(|m| (m.name.as_str(), m.content.as_str())).collect();
    assert_eq!(
        told,
        vec![
            ("calculate_tool", "ArgumentDecodeError: wrong type for property expression"),
            ("weather", "ToolNotFound: weather"),
            (
                "calculate_tool",
                "ToolCallError: Parse error: Missing argument at the end of expression."
            ),
            ("calculate_tool", "ArgumentDecodeError: the arguments are not valid JSON"),
            ("calculate_tool", "ArgumentDecodeError: missing required property expression"),
            ("calculate_tool", "ArgumentDecodeError: the arguments are not a JSON object"),
        ]
    );
    assert!(model.seen[1][2..].iter().all(|m| m.role == Role::ToolResult));
}

#[test]
fn tool_results_join_in_request_order_whichever_completes_first() {
    let two = || {
        calls(
            "",
            vec![
                ("calculate_tool", r#"{"expression": "1 + 1"}"#),
                ("calculate_tool", r#"{"expression": "2 * 3"}"#),
            ],
        )
    };
    let mut forward = worker(3);
    forward.start("task");
    assert_eq!(forward.on_response(two()), AgentAction::RunTools);
    assert_eq!(forward.pending_len(), 2);
    assert_eq!(forward.on_tool_result(0, Ok("2".to_string())), AgentAction::RunTools);
    assert_eq!(forward.transcript().len(), 2);
    assert_eq!(forward.on_tool_result(1, Ok("6".to_string())), AgentAction::AskModel);

    let mut backward = worker(3);
    backward.start("task");
    backward.on_response(two());
    assert!(backward.awaited(1).is_some());
    assert_eq!(backward.on_tool_result(1, Ok("6".to_string())), AgentAction::RunTools);
    assert_eq!(backward.phase(), AgentPhase::ToolDispatch);
    assert_eq!(backward.transcript().len(), 2);
    assert!(backward.awaited(1).is_none());
    assert_eq!(backward.awaited(0).map(|r| r.raw_args.as_str()), Some(r#"{"expression": "1 + 1"}"#));
    assert_eq!(backward.on_tool_result(0, Ok("2".to_string())), AgentAction::AskModel);

    assert_eq!(forward.transcript(), backward.transcript());
    assert_eq!(
        forward.transcript()[2..],
        [
            message(Role::ToolResult, "calculate_tool", "2"),
            message(Role::ToolResult, "calculate_tool", "6"),
        ]
    );

    let mut run = worker(3);
    run.start("task");
    run.on_response(two());
    assert_eq!(run.run_tools(), AgentAction::AskModel);
    assert_eq!(run.transcript(), forward.transcript());
}

#[test]
fn results_that_are_not_awaited_are_dropped() {
    let mut agent = worker(3);
    assert_eq!(agent.on_tool_result(0, Ok("x".to_string())), AgentAction::Idle);
    assert_eq!(agent.on_response(text("x <DONE>")), AgentAction::Idle);
    agent.start("task");
    assert_eq!(agent.on_tool_result(0, Ok("x".to_string())), AgentAction::AskModel);
    assert_eq!(agent.run_tools(), AgentAction::AskModel);
    agent.on_response(calls("", vec![("calculate_tool", r#"{"expression": "1"}"#)]));
    assert_eq!(agent.on_response(text("x <DONE>")), AgentAction::RunTools);
    assert_eq!(agent.on_tool_result(5, Ok("x".to_string())), AgentAction::RunTools);
    assert_eq!(
        agent.on_tool_result(
            0,
            Err(ToolError::ArgumentDecodeError(DecodeFailure::NotAnObject))
        ),
        AgentAction::AskModel
    );
    assert_eq!(agent.on_tool_result(0, Ok("again".to_string())), AgentAction::AskModel);
    assert_eq!(agent.transcript().len(), 3);
    assert_eq!(
        agent.transcript()[2].content,
        "ArgumentDecodeError: the arguments are not a JSON object"
    );
}

#[test]
fn cancellation_drops_the_transcript() {
    let mut agent = worker(3);
    assert_eq!(agent.cancel(), AgentAction::Idle);
    agent.start("task");
    agent.on_response(text("thinking"));
    assert_eq!(agent.cancel(), AgentAction::Done);
    assert_eq!(agent.phase(), AgentPhase::Cancelled);
    assert_eq!(agent.outcome(), Some(AgentOutcome::Cancelled));
    assert!(agent.transcript().is_empty());
    assert_eq!(agent.on_response(text("late <DONE>")), AgentAction::Done);
    assert_eq!(agent.outcome(), Some(AgentOutcome::Cancelled));

    let mut done = worker(3);
    done.start("task");
    done.on_response(text("x <DONE>"));
    assert_eq!(done.cancel(), AgentAction::Done);
    assert_eq!(done.outcome(), Some(AgentOutcome::Completed("x ".to_string())));
}

#[test]
fn a_new_run_starts_afresh() {
    let mut agent = worker(2);
    let mut model = Scripted::new(vec![Ok(text("one <DONE>")), Ok(text("two <DONE>"))]);
    assert_eq!(agent.run(&mut model, "first"), AgentOutcome::Completed("one ".to_string()));
    assert_eq!(agent.run(&mut model, "second"), AgentOutcome::Completed("two ".to_string()));
    assert_eq!(model.seen[1].len(), 2);
    assert_eq!(model.seen[1][1], message(Role::User, "Worker", "second"));
    assert_eq!(agent.name(), "The Working Agent");
    assert_eq!(agent.config().max_turns, 2);
    assert_eq!(agent.tools().len(), 1);
}
