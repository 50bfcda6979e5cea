//! An agent: a persona, its tools, and the run it is in.

use vstd::prelude::*;
use crate::agent_model::{action_of, after_tools, after_turn, all_completed, awaits, fill, initial,
    on_cancel, on_event, on_response, on_tool_result, on_transport_error, pending_of, ran_on,
    replay_events, result_content, seed, started, steps_left, tool_messages, AgentAction,
    AgentEventView, AgentPhase, AgentView, ModelResponseView, PendingCallView};
use crate::config::{AgentConfig, AgentConfigView};
use crate::error::{describe_tool_error, ToolError, TransportError};
use crate::message::{clone_transcript, transcript_view, Message, MessageView, Role};
use crate::registry::{conclude_spec, outcome_view, resolve_spec, result_view, ToolRegistry};
use crate::schema::ToolArgs;
use crate::text::truncate_at_stop_marker;
use crate::tool::{requests_view, Tool, ToolCallRequest, ToolCallRequestView, ToolDefinition,
    ToolDefinitionView};

verus! {

/// What the model answers: free text and the tool calls it asks for.
#[derive(Debug, PartialEq, Eq)]
pub struct ModelResponse {
    pub text: String,
    pub tool_calls: Vec<ToolCallRequest>,
}

impl View for ModelResponse {
    type V = ModelResponseView;

    open spec fn view(&self) -> ModelResponseView {
        ModelResponseView { text: self.text@, tool_calls: requests_view(self.tool_calls@) }
    }
}

/// What is sent to the model: the whole transcript, the tools on offer and
/// the sampling parameters.
#[derive(Debug, PartialEq, Eq)]
pub struct ModelRequest {
    pub transcript: Vec<Message>,
    pub tools: Vec<ToolDefinition>,
    /// The sampling temperature, in thousandths.
    pub temperature_millis: u32,
    pub max_tokens: u64,
}

/// How a run ended.
#[derive(Debug, PartialEq, Eq)]
pub enum AgentOutcome {
    Completed(String),
    Failed(TransportError),
    Cancelled,
}

/// A tool call of the current turn and, once it has completed, the content
/// of its result message.
struct PendingCall {
    request: ToolCallRequest,
    result: Option<String>,
}

impl View for PendingCall {
    type V = PendingCallView;

    closed spec fn view(&self) -> PendingCallView {
        PendingCallView {
            request: self.request@,
            result: match self.result {
                Some(content) => Some(content@),
                None => None,
            },
        }
    }
}

spec fn pending_view(pending: Seq<PendingCall>) -> Seq<PendingCallView> {
    Seq::new(pending.len(), |i: int| pending[i]@)
}

/// A configured reasoning loop with its tools and its own transcript.
pub struct Agent<T: Tool> {
    config: AgentConfig,
    tools: ToolRegistry<T>,
    phase: AgentPhase,
    transcript: Vec<Message>,
    turns_left: u32,
    last_text: String,
    pending: Vec<PendingCall>,
    output: String,
    failure: Option<TransportError>,
}

impl<T: Tool> View for Agent<T> {
    type V = AgentView;

    closed spec fn view(&self) -> AgentView {
        AgentView {
            phase: self.phase,
            transcript: transcript_view(self.transcript@),
            turns_left: self.turns_left as nat,
            last_text: self.last_text@,
            pending: pending_view(self.pending@),
            output: self.output@,
            failure: match self.failure {
                Some(error) => Some(error@),
                None => None,
            },
        }
    }
}

impl<T: Tool> Agent<T> {
    /// The configuration the agent was made with.
    pub closed spec fn spec_config(&self) -> AgentConfigView {
        self.config@
    }

    /// The definitions of the agent's tools.
    pub closed spec fn definitions(&self) -> Seq<ToolDefinitionView> {
        self.tools.definitions()
    }

    /// The agent's tools; `spec_tools()[i]` is registered under `definitions()[i]`.
    pub closed spec fn spec_tools(&self) -> Seq<T> {
        self.tools.tools()
    }

    /// `other` is this agent in another state of its run: the configuration
    /// and the tools are the same.
    pub open spec fn same_setup(&self, other: &Self) -> bool {
        &&& self.spec_config() == other.spec_config()
        &&& self.definitions() == other.definitions()
        &&& self.spec_tools() == other.spec_tools()
    }

    /// An agent that has not run.
    pub fn new(config: AgentConfig, tools: ToolRegistry<T>) -> (out: Self)
        ensures
            out@ == initial(),
            out.spec_config() == config@,
            out.definitions() == tools.definitions(),
            out.spec_tools() == tools.tools(),
    {
        let out = Agent {
            config,
            tools,
            phase: AgentPhase::Start,
            transcript: Vec::new(),
            turns_left: 0,
            last_text: String::new(),
            pending: Vec::new(),
            output: String::new(),
            failure: None,
        };
        assert(out@.transcript =~= Seq::<MessageView>::empty());
        assert(out@.pending =~= Seq::<PendingCallView>::empty());
        out
    }

    /// The configuration the agent was made with.
    pub fn config(&self) -> (out: &AgentConfig)
        ensures
            out@ == self.spec_config(),
    {
        &self.config
    }

    /// The agent's display name.
    pub fn name(&self) -> (out: &str)
        ensures
            out@ == self.spec_config().name,
    {
        self.config.name.as_str()
    }

    /// The agent's tools.
    pub fn tools(&self) -> (out: &ToolRegistry<T>)
        ensures
            out.definitions() == self.definitions(),
            out.tools() == self.spec_tools(),
    {
        &self.tools
    }

    /// Where the agent stands in its run.
    pub fn phase(&self) -> (out: AgentPhase)
        ensures
            out == self@.phase,
    {
        self.phase
    }

    /// What the caller has to do next.
    pub fn next_action(&self) -> (out: AgentAction)
        ensures
            out == action_of(self@.phase),
    {
        match self.phase {
            AgentPhase::Start => AgentAction::Idle,
            AgentPhase::AwaitingModel => AgentAction::AskModel,
            AgentPhase::ToolDispatch => AgentAction::RunTools,
            _ => AgentAction::Done,
        }
    }

    /// The transcript of the run so far.
    pub fn transcript(&self) -> (out: &Vec<Message>)
        ensures
            transcript_view(out@) == self@.transcript,
    {
        &self.transcript
    }

    /// The round trips to the model that the budget still allows.
    pub fn turns_left(&self) -> (out: u32)
        ensures
            out == self@.turns_left,
    {
        self.turns_left
    }

    /// How the run ended, once it has.
    pub fn outcome(&self) -> (out: Option<AgentOutcome>)
        ensures
            match self@.phase {
                AgentPhase::Completed => out matches Some(AgentOutcome::Completed(output))
                    && output@ == self@.output,
                AgentPhase::Failed => match self@.failure {
                    Some(cause) => out matches Some(AgentOutcome::Failed(error)) && error@ == cause,
                    None => out is None,
                },
                AgentPhase::Cancelled => out == Some(AgentOutcome::Cancelled),
                _ => out is None,
            },
    {
        match self.phase {
            AgentPhase::Completed => Some(AgentOutcome::Completed(self.output.clone())),
            AgentPhase::Failed => match &self.failure {
                Some(error) => Some(AgentOutcome::Failed(error.clone())),
                None => None,
            },
            AgentPhase::Cancelled => Some(AgentOutcome::Cancelled),
            _ => None,
        }
    }
}

impl<T: Tool> Agent<T> {
    /// Ends the turn: the run goes on while the budget allows another round
    /// trip, and otherwise completes with the last free text.
    fn finish_turn(&mut self)
        ensures
            final(self)@ == after_turn(old(self)@),
            final(self).same_setup(old(self)),
    {
        if self.turns_left == 0 {
            self.phase = AgentPhase::Completed;
            self.output = self.last_text.clone();
        } else {
            self.phase = AgentPhase::AwaitingModel;
        }
    }

    /// Begins a run on `task`, whatever went before: the transcript is
    /// seeded with the system prompt and the task, and the whole budget is
    /// available.
    pub fn start(&mut self, task: &str) -> (action: AgentAction)
        ensures
            final(self)@ == started(old(self).spec_config(), task@),
            final(self).same_setup(old(self)),
            action == action_of(final(self)@.phase),
    {
        let mut transcript: Vec<Message> = Vec::new();
        transcript.push(
            Message::new(Role::System, self.config.name.as_str(), self.config.system_prompt.as_str()),
        );
        transcript.push(Message::new(Role::User, self.config.user_name.as_str(), task));
        assert(transcript_view(transcript@) =~= seed(self.config@, task@));
        self.transcript = transcript;
        self.turns_left = self.config.max_turns;
        self.last_text = String::new();
        self.pending = Vec::new();
        self.output = String::new();
        self.failure = None;
        self.phase = AgentPhase::Start;
        assert(pending_view(self.pending@) =~= Seq::<PendingCallView>::empty());
        self.finish_turn();
        self.next_action()
    }

    /// Takes the model's response to the last request.
    ///
    /// Outside `AwaitingModel` the response is dropped and nothing changes.
    pub fn on_response(&mut self, response: ModelResponse) -> (action: AgentAction)
        ensures
            final(self)@ == on_response(old(self).spec_config(), old(self)@, response@),
            final(self).same_setup(old(self)),
            action == action_of(final(self)@.phase),
    {
        if self.phase != AgentPhase::AwaitingModel {
            return self.next_action();
        }
        if self.turns_left > 0 {
            self.turns_left = self.turns_left - 1;
        }
        let ModelResponse { text, tool_calls } = response;
        if tool_calls.len() > 0 {
            let mut pending: Vec<PendingCall> = Vec::new();
            let mut i: usize = 0;
            while i < tool_calls.len()
                invariant
                    i <= tool_calls.len(),
                    pending.len() == i,
                    forall|j: int|
                        0 <= j < i ==> (#[trigger] pending[j])@ == (PendingCallView {
                            request: tool_calls[j]@,
                            result: None,
                        }),
                decreases tool_calls.len() - i,
            {
                pending.push(PendingCall { request: tool_calls[i].clone(), result: None });
                i += 1;
            }
            assert(pending_view(pending@) =~= pending_of(requests_view(tool_calls@)));
            self.pending = pending;
            self.last_text = text;
            self.phase = AgentPhase::ToolDispatch;
        } else {
            match truncate_at_stop_marker(text.as_str(), &self.config.stop_markers) {
                Some(output) => {
                    self.output = output;
                    self.last_text = text;
                    self.phase = AgentPhase::Completed;
                },
                None => {
                    if self.turns_left > 0 {
                        let ghost before = self.transcript@;
                        let said = Message::new(
                            Role::Assistant,
                            self.config.name.as_str(),
                            text.as_str(),
                        );
                        self.transcript.push(said);
                        assert(transcript_view(self.transcript@) =~= transcript_view(before).push(
                            said@,
                        ));
                        self.last_text = text;
                    } else {
                        self.output = text.clone();
                        self.last_text = text;
                        self.phase = AgentPhase::Completed;
                    }
                },
            }
        }
        self.next_action()
    }

    /// Takes the failure of the model transport: the run has failed. There
    /// is no retry.
    ///
    /// Outside `AwaitingModel` the failure is dropped and nothing changes.
    pub fn on_transport_error(&mut self, error: TransportError) -> (action: AgentAction)
        ensures
            final(self)@ == on_transport_error(old(self)@, error@),
            final(self).same_setup(old(self)),
            action == action_of(final(self)@.phase),
    {
        if self.phase == AgentPhase::AwaitingModel {
            self.failure = Some(error);
            self.phase = AgentPhase::Failed;
        }
        self.next_action()
    }

    /// Cancels a run under way: what it had gathered is dropped.
    pub fn cancel(&mut self) -> (action: AgentAction)
        ensures
            final(self)@ == on_cancel(old(self)@),
            final(self).same_setup(old(self)),
            action == action_of(final(self)@.phase),
    {
        if self.phase == AgentPhase::AwaitingModel || self.phase == AgentPhase::ToolDispatch {
            self.transcript = Vec::new();
            self.turns_left = 0;
            self.last_text = String::new();
            self.pending = Vec::new();
            self.output = String::new();
            self.failure = None;
            self.phase = AgentPhase::Cancelled;
            assert(transcript_view(self.transcript@) =~= Seq::<MessageView>::empty());
            assert(pending_view(self.pending@) =~= Seq::<PendingCallView>::empty());
        }
        self.next_action()
    }

    /// Whether every call of the turn has completed.
    fn all_completed(&self) -> (done: bool)
        ensures
            done == all_completed(self@.pending),
    {
        let mut i: usize = 0;
        while i < self.pending.len()
            invariant
                i <= self.pending.len(),
                forall|j: int| 0 <= j < i ==> (#[trigger] self@.pending[j]).result is Some,
            decreases self.pending.len() - i,
        {
            if self.pending[i].result.is_none() {
                assert(self@.pending[i as int].result is None);
                return false;
            }
            i += 1;
        }
        true
    }

    /// Takes the result of call `index` of the turn.
    ///
    /// The result is kept until every call of the turn has completed,
    /// whichever completes first; then the result messages join the
    /// transcript in the order the model asked for the calls. A result that
    /// is not awaited is dropped and nothing changes.
    pub fn on_tool_result(&mut self, index: usize, result: Result<String, ToolError>) -> (action:
        AgentAction)
        ensures
            final(self)@ == on_tool_result(old(self)@, index as int, result_view(result)),
            final(self).same_setup(old(self)),
            action == action_of(final(self)@.phase),
    {
        if self.phase != AgentPhase::ToolDispatch || index >= self.pending.len()
            || self.pending[index].result.is_some() {
            return self.next_action();
        }
        let content = match result {
            Ok(output) => output,
            Err(error) => error.describe(),
        };
        let ghost before = self@;
        let ghost updated = before.pending.update(
            index as int,
            PendingCallView {
                request: before.pending[index as int].request,
                result: Some(result_content(result_view(result))),
            },
        );
        let request = self.pending[index].request.clone();
        self.pending.set(index, PendingCall { request, result: Some(content) });
        assert(self@.pending =~= updated);
        if self.all_completed() {
            self.flush();
        }
        self.next_action()
    }
}

/// The model transport: it sends the transcript with the sampling parameters
/// and brings back the model's response, or fails.
pub trait ModelTransport {
    fn send(&mut self, request: &ModelRequest) -> Result<ModelResponse, TransportError>;
}

/// `content` is what dispatching `request` reports to the model: where the
/// request does not resolve, the description of that failure; where it does,
/// what a result of the resolved tool on the decoded arguments becomes, its
/// output unchanged or the description of its failure.
pub open spec fn reported<T: Tool>(
    definitions: Seq<ToolDefinitionView>,
    tools: Seq<T>,
    request: ToolCallRequestView,
    content: Seq<char>,
) -> bool {
    match resolve_spec(definitions, request) {
        Err(error) => content == describe_tool_error(error),
        Ok((at, arguments)) => exists|decoded: ToolArgs, outcome: Result<String, String>|
            decoded@ == arguments && call_ensures(T::call, (&tools[at], &decoded), outcome)
                && content == result_content(conclude_spec(outcome_view(outcome))),
    }
}

spec fn fill_upto(pending: Seq<PendingCallView>, contents: Seq<Seq<char>>, upto: int) -> Seq<
    PendingCallView,
> {
    Seq::new(
        pending.len(),
        |i: int|
            if i < upto {
                fill(pending, contents)[i]
            } else {
                pending[i]
            },
    )
}

impl<T: Tool> Agent<T> {
    /// Ends the dispatch of a turn in which every call has completed.
    fn flush(&mut self)
        requires
            old(self)@.phase == AgentPhase::ToolDispatch,
            all_completed(old(self)@.pending),
        ensures
            final(self)@ == after_turn(
                AgentView {
                    transcript: old(self)@.transcript + tool_messages(old(self)@.pending),
                    pending: Seq::empty(),
                    ..old(self)@
                },
            ),
            final(self).same_setup(old(self)),
    {
        let ghost before = self@;
        let mut i: usize = 0;
        while i < self.pending.len()
            invariant
                i <= self.pending.len(),
                all_completed(before.pending),
                self@ == (AgentView {
                    transcript: before.transcript + tool_messages(before.pending).take(i as int),
                    ..before
                }),
                self.same_setup(old(self)),
            decreases self.pending.len() - i,
        {
            let content = match &self.pending[i].result {
                Some(content) => content.clone(),
                None => String::new(),
            };
            let ghost so_far = self.transcript@;
            let told = Message {
                role: Role::ToolResult,
                name: self.pending[i].request.name.clone(),
                content,
            };
            self.transcript.push(told);
            proof {
                assert(before.pending[i as int].result is Some);
                assert(told@ == tool_messages(before.pending)[i as int]);
                assert(transcript_view(self.transcript@) =~= transcript_view(so_far).push(told@));
                assert(tool_messages(before.pending).take(i + 1) =~= tool_messages(
                    before.pending,
                ).take(i as int).push(told@));
                assert(self@.transcript =~= before.transcript + tool_messages(before.pending).take(
                    i + 1,
                ));
            }
            i += 1;
        }
        assert(tool_messages(before.pending).take(i as int) =~= tool_messages(before.pending));
        self.pending = Vec::new();
        assert(pending_view(self.pending@) =~= Seq::<PendingCallView>::empty());
        self.finish_turn();
    }

    /// The request to send to the model: the whole transcript, the tools on
    /// offer and the sampling parameters.
    pub fn request(&self) -> (out: ModelRequest)
        ensures
            transcript_view(out.transcript@) == self@.transcript,
            out.tools.len() == self.definitions().len(),
            forall|i: int| 0 <= i < out.tools.len() ==> (#[trigger] out.tools[i])@ == self.definitions()[i],
            out.temperature_millis == self.spec_config().temperature_millis,
            out.max_tokens == self.spec_config().max_tokens,
    {
        ModelRequest {
            transcript: clone_transcript(&self.transcript),
            tools: self.tools.published(),
            temperature_millis: self.config.temperature_millis,
            max_tokens: self.config.max_tokens,
        }
    }

    /// The request of call `index` of the turn, where its result is awaited.
    pub fn awaited(&self, index: usize) -> (out: Option<&ToolCallRequest>)
        ensures
            out is Some <==> awaits(self@, index as int),
            out matches Some(request) ==> request@ == self@.pending[index as int].request,
    {
        if self.phase == AgentPhase::ToolDispatch && index < self.pending.len()
            && self.pending[index].result.is_none() {
            Some(&self.pending[index].request)
        } else {
            None
        }
    }

    /// How many calls the turn under dispatch has.
    pub fn pending_len(&self) -> (out: usize)
        ensures
            out == self@.pending.len(),
    {
        self.pending.len()
    }

    /// Dispatches every awaited call of the turn, one after the other, and
    /// takes the results.
    ///
    /// Afterwards one result message per call has joined the transcript, in
    /// the order the model asked for the calls, and the turn is over. Outside
    /// `ToolDispatch` nothing changes.
    pub fn run_tools(&mut self) -> (action: AgentAction)
        ensures
            old(self)@.phase != AgentPhase::ToolDispatch ==> final(self)@ == old(self)@,
            old(self)@.phase == AgentPhase::ToolDispatch ==> exists|contents: Seq<Seq<char>>|
                {
                    &&& contents.len() == old(self)@.pending.len()
                    &&& forall|i: int|
                        0 <= i < contents.len() && old(self)@.pending[i].result is None
                            ==> reported(
                            old(self).definitions(),
                            old(self).spec_tools(),
                            old(self)@.pending[i].request,
                            #[trigger] contents[i],
                        )
                    &&& final(self)@ == after_tools(old(self)@, contents)
                },
            final(self).same_setup(old(self)),
            action == action_of(final(self)@.phase),
    {
        if self.phase != AgentPhase::ToolDispatch {
            return self.next_action();
        }
        let ghost before = self@;
        let ghost mut contents: Seq<Seq<char>> = Seq::new(before.pending.len(), |i: int| Seq::empty());
        let n = self.pending.len();
        let mut i: usize = 0;
        assert(self@.pending =~= fill_upto(before.pending, contents, 0));
        while i < n && self.phase == AgentPhase::ToolDispatch
            invariant
                i <= n,
                n == before.pending.len(),
                contents.len() == n,
                before.phase == AgentPhase::ToolDispatch,
                self.same_setup(old(self)),
                forall|j: int|
                    0 <= j < i && before.pending[j].result is None ==> reported(
                        old(self).definitions(),
                        old(self).spec_tools(),
                        before.pending[j].request,
                        #[trigger] contents[j],
                    ),
                self@.phase == AgentPhase::ToolDispatch ==> self@ == (AgentView {
                    pending: fill_upto(before.pending, contents, i as int),
                    ..before
                }),
                self@.phase != AgentPhase::ToolDispatch ==> self@ == after_tools(before, contents),
                self@.phase != AgentPhase::ToolDispatch ==> forall|j: int|
                    i <= j < n ==> (#[trigger] before.pending[j]).result is Some,
            decreases n - i,
        {
            let ghost current = self@;
            assert(self@.pending.len() == n);
            assert(self@.pending[i as int] == before.pending[i as int]);
            if self.pending[i].result.is_none() {
                let result = self.tools.dispatch(&self.pending[i].request);
                let ghost content = result_content(result_view(result));
                proof {
                    assert(reported(
                        old(self).definitions(),
                        old(self).spec_tools(),
                        before.pending[i as int].request,
                        content,
                    ));
                    contents = contents.update(i as int, content);
                }
                self.on_tool_result(i, result);
                proof {
                    let updated = current.pending.update(
                        i as int,
                        PendingCallView {
                            request: current.pending[i as int].request,
                            result: Some(content),
                        },
                    );
                    assert(updated =~= fill_upto(before.pending, contents, i + 1));
                    if all_completed(updated) {
                        assert forall|j: int| i < j < n implies (
                        #[trigger] before.pending[j]).result is Some by {
                            assert(updated[j].result is Some);
                        }
                        assert(updated =~= fill(before.pending, contents));
                    }
                }
            } else {
                assert(before.pending[i as int].result is Some);
                assert(fill_upto(before.pending, contents, i + 1) =~= fill_upto(
                    before.pending,
                    contents,
                    i as int,
                ));
            }
            i += 1;
        }
        if self.phase == AgentPhase::ToolDispatch {
            assert(self@.pending =~= fill(before.pending, contents));
            self.flush();
        }
        proof {
            assert forall|j: int|
                0 <= j < contents.len() && before.pending[j].result is None implies reported(
                old(self).definitions(),
                old(self).spec_tools(),
                before.pending[j].request,
                #[trigger] contents[j],
            ) by {}
            assert(self@ == after_tools(before, contents));
        }
        self.next_action()
    }

    /// Runs the agent on `task` to its end: asks the model, dispatches the
    /// tool calls it asks for, and stops on a stop marker, on a spent budget
    /// or on a failure of the transport.
    ///
    /// The loop ends whatever the model answers: each round trip uses up one
    /// turn of the budget.
    pub fn run<M: ModelTransport>(&mut self, model: &mut M, task: &str) -> (out: AgentOutcome)
        ensures
            final(self).same_setup(old(self)),
            final(self)@.phase == AgentPhase::Completed || final(self)@.phase == AgentPhase::Failed,
            match out {
                AgentOutcome::Completed(output) => final(self)@.phase == AgentPhase::Completed
                    && output@ == final(self)@.output,
                AgentOutcome::Failed(error) => final(self)@.phase == AgentPhase::Failed && Some(
                    error@,
                ) == final(self)@.failure,
                AgentOutcome::Cancelled => false,
            },
            old(self).spec_config().max_turns == 0 ==> final(self)@ == started(
                old(self).spec_config(),
                task@,
            ),
            ran_on(final(self)@, old(self).spec_config(), task@),
    {
        self.start(task);
        let ghost config = self.spec_config();
        let ghost mut events: Seq<AgentEventView> = Seq::empty();
        while self.phase == AgentPhase::AwaitingModel || self.phase == AgentPhase::ToolDispatch
            invariant
                self.same_setup(old(self)),
                self@.phase != AgentPhase::Start,
                self@.phase != AgentPhase::Cancelled,
                self@.phase == AgentPhase::Failed ==> self@.failure is Some,
                old(self).spec_config().max_turns == 0 ==> self@ == started(
                    old(self).spec_config(),
                    task@,
                ),
                config == old(self).spec_config(),
                self@ == replay_events(config, started(config, task@), events),
            decreases steps_left(self@),
        {
            let ghost before = self@;
            let ghost event;
            if self.phase == AgentPhase::AwaitingModel {
                let request = self.request();
                match model.send(&request) {
                    Ok(response) => {
                        proof {
                            event = AgentEventView::Response(response@);
                        }
                        self.on_response(response);
                    },
                    Err(error) => {
                        proof {
                            event = AgentEventView::TransportFailed(error@);
                        }
                        self.on_transport_error(error);
                    },
                }
            } else {
                self.run_tools();
                proof {
                    let contents = choose|contents: Seq<Seq<char>>|
                        self@ == after_tools(before, contents);
                    event = AgentEventView::ToolsCompleted(contents);
                }
                assert(self@.phase != AgentPhase::ToolDispatch);
            }
            proof {
                assert(self@ == on_event(config, before, event));
                let longer = events.push(event);
                assert(longer.drop_last() =~= events);
                events = longer;
            }
            assert(steps_left(self@) < steps_left(before));
        }
        match self.outcome() {
            Some(outcome) => outcome,
            None => AgentOutcome::Cancelled,
        }
    }
}

} // verus!
