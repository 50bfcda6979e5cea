//! The reasoning loop of one agent, as a state machine over mathematical values.
//!
//! `Start → AwaitingModel → (ToolDispatch)* → Completed | Failed | Cancelled`.
//! Each function here says what one event makes of a state; the agent's
//! executable methods are proved to compute exactly these.

use vstd::prelude::*;
use crate::config::AgentConfigView;
use crate::error::{describe_tool_error, ToolErrorView, TransportErrorView};
use crate::message::{MessageView, Role};
use crate::text::truncate_at_stop;
use crate::tool::ToolCallRequestView;

verus! {

/// Where an agent stands in its run.
#[derive(Clone, Copy, Debug, PartialEq, Eq, Structural)]
pub enum AgentPhase {
    /// No run has begun.
    Start,
    /// The transcript is to be sent to the model.
    AwaitingModel,
    /// The tool calls of the last response are under way.
    ToolDispatch,
    /// The run ended with an output.
    Completed,
    /// The model transport failed.
    Failed,
    /// The run was cancelled.
    Cancelled,
}

/// What the caller of the agent has to do next.
#[derive(Clone, Copy, Debug, PartialEq, Eq, Structural)]
pub enum AgentAction {
    /// Begin a run.
    Idle,
    /// Send the agent's request to the model and hand back what comes.
    AskModel,
    /// Run the pending tool calls and hand back their results.
    RunTools,
    /// Nothing: the run has ended.
    Done,
}

/// What the model answers: free text and the tool calls it asks for.
pub struct ModelResponseView {
    pub text: Seq<char>,
    pub tool_calls: Seq<ToolCallRequestView>,
}

/// A tool call of the current turn, and the content of its result message
/// once it has completed.
pub struct PendingCallView {
    pub request: ToolCallRequestView,
    pub result: Option<Seq<char>>,
}

/// The state of an agent's run.
pub struct AgentView {
    pub phase: AgentPhase,
    pub transcript: Seq<MessageView>,
    /// The round trips to the model that the budget still allows.
    pub turns_left: nat,
    /// The free text of the last response.
    pub last_text: Seq<char>,
    pub pending: Seq<PendingCallView>,
    /// The output, once the run is `Completed`.
    pub output: Seq<char>,
    /// The cause, once the run is `Failed`.
    pub failure: Option<TransportErrorView>,
}

/// The phase is one in which a run has ended.
pub open spec fn is_terminal(phase: AgentPhase) -> bool {
    phase == AgentPhase::Completed || phase == AgentPhase::Failed || phase == AgentPhase::Cancelled
}

/// What there is to do in a phase.
pub open spec fn action_of(phase: AgentPhase) -> AgentAction {
    match phase {
        AgentPhase::Start => AgentAction::Idle,
        AgentPhase::AwaitingModel => AgentAction::AskModel,
        AgentPhase::ToolDispatch => AgentAction::RunTools,
        _ => AgentAction::Done,
    }
}

/// The state of an agent that has not run.
pub open spec fn initial() -> AgentView {
    AgentView {
        phase: AgentPhase::Start,
        transcript: Seq::empty(),
        turns_left: 0,
        last_text: Seq::empty(),
        pending: Seq::empty(),
        output: Seq::empty(),
        failure: None,
    }
}

/// The transcript a run begins with: the system prompt, then the task as the
/// first user message.
pub open spec fn seed(config: AgentConfigView, task: Seq<char>) -> Seq<MessageView> {
    seq![
        MessageView { role: Role::System, name: config.name, content: config.system_prompt },
        MessageView { role: Role::User, name: config.user_name, content: task },
    ]
}

/// The state after a whole turn: the run goes on while the budget allows
/// another round trip, and otherwise completes with the last free text.
pub open spec fn after_turn(state: AgentView) -> AgentView {
    if state.turns_left == 0 {
        AgentView { phase: AgentPhase::Completed, output: state.last_text, ..state }
    } else {
        AgentView { phase: AgentPhase::AwaitingModel, ..state }
    }
}

/// The state in which a run on `task` begins, whatever went before.
pub open spec fn started(config: AgentConfigView, task: Seq<char>) -> AgentView {
    after_turn(
        AgentView {
            transcript: seed(config, task),
            turns_left: config.max_turns as nat,
            ..initial()
        },
    )
}

/// The calls of a response, none of them completed.
pub open spec fn pending_of(calls: Seq<ToolCallRequestView>) -> Seq<PendingCallView> {
    Seq::new(calls.len(), |i: int| PendingCallView { request: calls[i], result: None })
}

/// The state after the model's response.
///
/// A response that asks for tool calls opens their dispatch. Otherwise a stop
/// marker in the text completes the run with the text before the earliest
/// marker. Otherwise the text joins the transcript and the run goes on, or,
/// with the budget spent, completes with the text as it is.
pub open spec fn on_response(
    config: AgentConfigView,
    state: AgentView,
    response: ModelResponseView,
) -> AgentView {
    if state.phase != AgentPhase::AwaitingModel {
        state
    } else {
        let heard = AgentView {
            turns_left: if state.turns_left > 0 {
                (state.turns_left - 1) as nat
            } else {
                0
            },
            last_text: response.text,
            ..state
        };
        if response.tool_calls.len() > 0 {
            AgentView {
                phase: AgentPhase::ToolDispatch,
                pending: pending_of(response.tool_calls),
                ..heard
            }
        } else {
            match truncate_at_stop(response.text, config.stop_markers) {
                Some(output) => AgentView { phase: AgentPhase::Completed, output, ..heard },
                None => if heard.turns_left > 0 {
                    AgentView {
                        phase: AgentPhase::AwaitingModel,
                        transcript: heard.transcript.push(
                            MessageView {
                                role: Role::Assistant,
                                name: config.name,
                                content: response.text,
                            },
                        ),
                        ..heard
                    }
                } else {
                    AgentView { phase: AgentPhase::Completed, output: response.text, ..heard }
                },
            }
        }
    }
}

/// The state after the transport failed: the run has failed, with the cause.
pub open spec fn on_transport_error(state: AgentView, error: TransportErrorView) -> AgentView {
    if state.phase != AgentPhase::AwaitingModel {
        state
    } else {
        AgentView { phase: AgentPhase::Failed, failure: Some(error), ..state }
    }
}

/// The state after a cancellation: a run under way is cancelled and what it
/// had gathered is dropped.
pub open spec fn on_cancel(state: AgentView) -> AgentView {
    if state.phase == AgentPhase::AwaitingModel || state.phase == AgentPhase::ToolDispatch {
        AgentView { phase: AgentPhase::Cancelled, ..initial() }
    } else {
        state
    }
}

/// The content of the message that reports a tool call's result to the
/// model: the output, or the description of the failure.
pub open spec fn result_content(result: Result<Seq<char>, ToolErrorView>) -> Seq<char> {
    match result {
        Ok(output) => output,
        Err(error) => describe_tool_error(error),
    }
}

/// Every pending call has completed.
pub open spec fn all_completed(pending: Seq<PendingCallView>) -> bool {
    forall|i: int| 0 <= i < pending.len() ==> (#[trigger] pending[i]).result is Some
}

/// One tool-result message per call, in the order of the calls.
pub open spec fn tool_messages(pending: Seq<PendingCallView>) -> Seq<MessageView> {
    Seq::new(
        pending.len(),
        |i: int|
            MessageView {
                role: Role::ToolResult,
                name: pending[i].request.name,
                content: pending[i].result->0,
            },
    )
}

/// Whether the result of call `index` is awaited.
pub open spec fn awaits(state: AgentView, index: int) -> bool {
    &&& state.phase == AgentPhase::ToolDispatch
    &&& 0 <= index < state.pending.len()
    &&& state.pending[index].result is None
}

/// The state after call `index` of the turn completed with `result`.
///
/// The result is kept until every call of the turn has completed; then the
/// result messages join the transcript in the order of the calls and the
/// turn is over.
pub open spec fn on_tool_result(
    state: AgentView,
    index: int,
    result: Result<Seq<char>, ToolErrorView>,
) -> AgentView {
    if !awaits(state, index) {
        state
    } else {
        let pending = state.pending.update(
            index,
            PendingCallView {
                request: state.pending[index].request,
                result: Some(result_content(result)),
            },
        );
        if all_completed(pending) {
            after_turn(
                AgentView {
                    transcript: state.transcript + tool_messages(pending),
                    pending: Seq::empty(),
                    ..state
                },
            )
        } else {
            AgentView { pending, ..state }
        }
    }
}

/// The pending calls with every awaited result taken from `contents`.
pub open spec fn fill(pending: Seq<PendingCallView>, contents: Seq<Seq<char>>) -> Seq<
    PendingCallView,
> {
    Seq::new(
        pending.len(),
        |i: int|
            PendingCallView {
                request: pending[i].request,
                result: Some(
                    match pending[i].result {
                        Some(content) => content,
                        None => contents[i],
                    },
                ),
            },
    )
}

/// The state after the whole dispatch of a turn, where `contents` are the
/// contents of the awaited results: one result message per call has joined
/// the transcript, in the order of the calls, and the turn is over.
pub open spec fn after_tools(state: AgentView, contents: Seq<Seq<char>>) -> AgentView {
    after_turn(
        AgentView {
            transcript: state.transcript + tool_messages(fill(state.pending, contents)),
            pending: Seq::empty(),
            ..state
        },
    )
}

/// How far a run is from its end at most: each step of a run makes this smaller.
pub open spec fn steps_left(state: AgentView) -> nat {
    match state.phase {
        AgentPhase::AwaitingModel => 2 * state.turns_left + 2,
        AgentPhase::ToolDispatch => if state.turns_left == 0 {
            1
        } else {
            2 * state.turns_left + 3
        },
        _ => 0,
    }
}

/// Something that happens to a run from outside.
pub enum AgentEventView {
    /// The model answered.
    Response(ModelResponseView),
    /// The transport failed.
    TransportFailed(TransportErrorView),
    /// The calls of the turn were dispatched; these are the contents of the
    /// results that were awaited.
    ToolsCompleted(Seq<Seq<char>>),
}

/// The state after `event`.
pub open spec fn on_event(config: AgentConfigView, state: AgentView, event: AgentEventView) -> AgentView {
    match event {
        AgentEventView::Response(response) => on_response(config, state, response),
        AgentEventView::TransportFailed(error) => on_transport_error(state, error),
        AgentEventView::ToolsCompleted(contents) => if state.phase == AgentPhase::ToolDispatch {
            after_tools(state, contents)
        } else {
            state
        },
    }
}

/// The state after the events of `events`, taken one after the other.
pub open spec fn replay_events(
    config: AgentConfigView,
    state: AgentView,
    events: Seq<AgentEventView>,
) -> AgentView
    decreases events.len(),
{
    if events.len() == 0 {
        state
    } else {
        on_event(config, replay_events(config, state, events.drop_last()), events.last())
    }
}

/// `state` is a state of a run on `input`: some events lead to it from the
/// state in which that run began.
pub open spec fn ran_on(state: AgentView, config: AgentConfigView, input: Seq<char>) -> bool {
    exists|events: Seq<AgentEventView>|
        state == replay_events(config, started(config, input), events)
}

/// Every response that a run takes brings the run nearer to its end: the
/// loop ends even if the model never writes a stop marker.
pub proof fn law_response_uses_budget(
    config: AgentConfigView,
    state: AgentView,
    response: ModelResponseView,
)
    requires
        state.phase == AgentPhase::AwaitingModel,
    ensures
        steps_left(on_response(config, state, response)) < steps_left(state),
{
}

/// The dispatch of a turn brings the run nearer to its end, and a result
/// that does not end the dispatch leaves the run no further from it.
pub proof fn law_tool_result_makes_progress(
    state: AgentView,
    index: int,
    result: Result<Seq<char>, ToolErrorView>,
)
    requires
        awaits(state, index),
    ensures
        steps_left(on_tool_result(state, index, result)) <= steps_left(state),
        on_tool_result(state, index, result).phase != AgentPhase::ToolDispatch ==> steps_left(
            on_tool_result(state, index, result),
        ) < steps_left(state),
{
}

/// A run that has ended takes no further event.
pub proof fn law_ended_run_stays(
    config: AgentConfigView,
    state: AgentView,
    response: ModelResponseView,
    error: TransportErrorView,
    index: int,
    result: Result<Seq<char>, ToolErrorView>,
)
    requires
        is_terminal(state.phase),
    ensures
        on_response(config, state, response) == state,
        on_transport_error(state, error) == state,
        on_tool_result(state, index, result) == state,
        on_cancel(state) == state,
{
}

/// A failure of the transport ends the run as `Failed`, with its cause.
pub proof fn law_transport_failure_fails(state: AgentView, error: TransportErrorView)
    requires
        state.phase == AgentPhase::AwaitingModel,
    ensures
        on_transport_error(state, error).phase == AgentPhase::Failed,
        on_transport_error(state, error).failure == Some(error),
{
}

/// While a result of the turn is still awaited, the turn is not over: the
/// transcript is as it was and the model is not asked.
pub proof fn law_dispatch_waits_for_all(
    state: AgentView,
    index: int,
    result: Result<Seq<char>, ToolErrorView>,
    other: int,
)
    requires
        awaits(state, index),
        awaits(state, other),
        other != index,
    ensures
        on_tool_result(state, index, result).phase == AgentPhase::ToolDispatch,
        on_tool_result(state, index, result).transcript == state.transcript,
        awaits(on_tool_result(state, index, result), other),
{
    let pending = state.pending.update(
        index,
        PendingCallView {
            request: state.pending[index].request,
            result: Some(result_content(result)),
        },
    );
    assert(pending[other].result is None);
}

/// Whichever of two calls completes first, the state after both is the same.
pub proof fn law_tool_results_commute(
    state: AgentView,
    first: int,
    first_result: Result<Seq<char>, ToolErrorView>,
    second: int,
    second_result: Result<Seq<char>, ToolErrorView>,
)
    requires
        first != second,
    ensures
        on_tool_result(on_tool_result(state, first, first_result), second, second_result)
            == on_tool_result(on_tool_result(state, second, second_result), first, first_result),
{
    if awaits(state, first) && awaits(state, second) {
        let a = PendingCallView {
            request: state.pending[first].request,
            result: Some(result_content(first_result)),
        };
        let b = PendingCallView {
            request: state.pending[second].request,
            result: Some(result_content(second_result)),
        };
        let first_then = state.pending.update(first, a);
        let second_then = state.pending.update(second, b);
        assert(first_then[second].result is None);
        assert(second_then[first].result is None);
        assert(first_then.update(second, b) =~= second_then.update(first, a));
    } else if awaits(state, first) {
        let after = on_tool_result(state, first, first_result);
        assert(!awaits(after, second));
    } else if awaits(state, second) {
        let after = on_tool_result(state, second, second_result);
        assert(!awaits(after, first));
    }
}

/// After the dispatch of a turn the transcript has grown by one result
/// message per call, in the order the model asked for the calls.
pub proof fn law_results_in_request_order(state: AgentView, contents: Seq<Seq<char>>)
    ensures
        ({
            let after = after_tools(state, contents);
            &&& after.transcript.len() == state.transcript.len() + state.pending.len()
            &&& after.transcript.subrange(0, state.transcript.len() as int) == state.transcript
            &&& forall|i: int|
                0 <= i < state.pending.len() ==> {
                    let told = #[trigger] after.transcript[state.transcript.len() + i];
                    &&& told.role == Role::ToolResult
                    &&& told.name == state.pending[i].request.name
                    &&& told.content == match state.pending[i].result {
                        Some(content) => content,
                        None => contents[i],
                    }
                }
        }),
{
    let after = after_tools(state, contents);
    assert(after.transcript.subrange(0, state.transcript.len() as int) =~= state.transcript);
}

} // verus!
