//! A workflow: an ordered chain of agents that hand a task down the line.

use vstd::prelude::*;
use crate::agent::{Agent, AgentOutcome, ModelTransport};
use crate::agent_model::{ran_on, AgentPhase};
use crate::error::TransportError;
use crate::tool::Tool;
use crate::workflow_model::{agents_run, begin, idle, input_of, is_running, on_outcome, replay,
    AgentOutcomeView,
    TraceEntryView, WorkflowStatus, WorkflowView};

verus! {

impl View for AgentOutcome {
    type V = AgentOutcomeView;

    open spec fn view(&self) -> AgentOutcomeView {
        match self {
            AgentOutcome::Completed(output) => AgentOutcomeView::Completed(output@),
            AgentOutcome::Failed(error) => AgentOutcomeView::Failed(error@),
            AgentOutcome::Cancelled => AgentOutcomeView::Cancelled,
        }
    }
}

/// One step of the trace: an agent and what it gave.
#[derive(Debug, PartialEq, Eq)]
pub struct TraceEntry {
    pub agent_name: String,
    pub output: String,
}

impl View for TraceEntry {
    type V = TraceEntryView;

    open spec fn view(&self) -> TraceEntryView {
        TraceEntryView { agent_name: self.agent_name@, output: self.output@ }
    }
}

impl Clone for TraceEntry {
    fn clone(&self) -> (out: TraceEntry)
        ensures
            out@ == self@,
    {
        TraceEntry { agent_name: self.agent_name.clone(), output: self.output.clone() }
    }
}

/// The views of a sequence of trace entries.
pub open spec fn trace_view(trace: Seq<TraceEntry>) -> Seq<TraceEntryView> {
    Seq::new(trace.len(), |i: int| trace[i]@)
}

/// A copy of `trace`.
pub fn clone_trace(trace: &Vec<TraceEntry>) -> (out: Vec<TraceEntry>)
    ensures
        trace_view(out@) == trace_view(trace@),
{
    let mut out: Vec<TraceEntry> = Vec::new();
    let mut i: usize = 0;
    while i < trace.len()
        invariant
            i <= trace.len(),
            out.len() == i,
            forall|j: int| 0 <= j < i ==> (#[trigger] out[j])@ == trace[j]@,
        decreases trace.len() - i,
    {
        out.push(trace[i].clone());
        i += 1;
    }
    assert(trace_view(out@) =~= trace_view(trace@));
    out
}

/// What a completed run gives: the last agent's output, and every agent's
/// output in the order they ran.
#[derive(Debug, PartialEq, Eq)]
pub struct RunResult {
    pub output: String,
    pub trace: Vec<TraceEntry>,
}

/// Why a run gave no result: which agent failed, why, and what the agents
/// before it had given.
#[derive(Debug, PartialEq, Eq)]
pub struct WorkflowError {
    /// The position of the failing agent in the chain, from 0.
    pub agent_index: usize,
    pub agent_name: String,
    pub cause: TransportError,
    pub trace: Vec<TraceEntry>,
}

/// How a workflow's run ended.
#[derive(Debug, PartialEq, Eq)]
pub enum WorkflowOutcome {
    Completed(RunResult),
    Failed(WorkflowError),
    Cancelled,
}

/// `outcome` is how a run ended that stands at `state`.
pub open spec fn reports(
    outcome: WorkflowOutcome,
    names: Seq<Seq<char>>,
    state: WorkflowView,
) -> bool {
    match outcome {
        WorkflowOutcome::Completed(result) => {
            &&& state.status == WorkflowStatus::Completed
            &&& result.output@ == state.input
            &&& trace_view(result.trace@) == state.trace
        },
        WorkflowOutcome::Failed(error) => {
            &&& state.status == WorkflowStatus::Failed
            &&& error.agent_index == state.cursor
            &&& state.cursor < names.len()
            &&& error.agent_name@ == names[state.cursor as int]
            &&& Some(error.cause@) == state.failure
            &&& trace_view(error.trace@) == state.trace
        },
        WorkflowOutcome::Cancelled => state.status == WorkflowStatus::Cancelled,
    }
}

/// What a run on `task` that stands at `state` has made of the agents
/// `before`: each agent of the trace ran on what it received, the task or
/// the output of the agent before it, and completed with the output that the
/// trace holds for it; where the run has failed, the agent at the cursor ran
/// on what it received and failed with the cause; the agents after these
/// did not run. No agent's configuration or tools changed.
pub open spec fn agents_ran<T: Tool>(
    before: Seq<Agent<T>>,
    after: Seq<Agent<T>>,
    task: Seq<char>,
    state: WorkflowView,
) -> bool {
    &&& after.len() == before.len()
    &&& agents_run(state) <= after.len()
    &&& forall|i: int| 0 <= i < after.len() ==> (#[trigger] after[i]).same_setup(&before[i])
    &&& forall|i: int|
        0 <= i < state.trace.len() ==> {
            let agent = (#[trigger] after[i])@;
            &&& ran_on(agent, before[i].spec_config(), input_of(task, state.trace, i))
            &&& agent.phase == AgentPhase::Completed
            &&& agent.output == state.trace[i].output
            &&& before[i].spec_config().name == state.trace[i].agent_name
        }
    &&& state.status == WorkflowStatus::Failed ==> {
        let at = state.trace.len() as int;
        let agent = after[at]@;
        &&& state.cursor == at
        &&& ran_on(agent, before[at].spec_config(), input_of(task, state.trace, at))
        &&& agent.phase == AgentPhase::Failed
        &&& agent.failure == state.failure
    }
    &&& forall|i: int| agents_run(state) <= i < after.len() ==> (#[trigger] after[i]) == before[i]
}

/// An ordered chain of agents. It owns its agents.
pub struct SequentialWorkflow<T: Tool> {
    name: String,
    agents: Vec<Agent<T>>,
    status: WorkflowStatus,
    cursor: usize,
    input: String,
    trace: Vec<TraceEntry>,
    failure: Option<TransportError>,
}

spec fn names_of<T: Tool>(agents: Seq<Agent<T>>) -> Seq<Seq<char>> {
    Seq::new(agents.len(), |i: int| agents[i].spec_config().name)
}

impl<T: Tool> View for SequentialWorkflow<T> {
    type V = WorkflowView;

    closed spec fn view(&self) -> WorkflowView {
        WorkflowView {
            status: self.status,
            cursor: self.cursor as nat,
            input: self.input@,
            trace: trace_view(self.trace@),
            failure: match self.failure {
                Some(error) => Some(error@),
                None => None,
            },
        }
    }
}

impl<T: Tool> SequentialWorkflow<T> {
    /// The workflow's name.
    pub closed spec fn spec_name(&self) -> Seq<char> {
        self.name@
    }

    /// The agents of the chain, in order.
    pub closed spec fn agents(&self) -> Seq<Agent<T>> {
        self.agents@
    }

    /// The names of the agents of the chain, in order.
    pub closed spec fn agent_names(&self) -> Seq<Seq<char>> {
        names_of(self.agents@)
    }

    /// A workflow named `name`, without agents.
    pub fn new(name: &str) -> (out: Self)
        ensures
            out@ == idle(),
            out.spec_name() == name@,
            out.agents() == Seq::<Agent<T>>::empty(),
            out.agent_names() == Seq::<Seq<char>>::empty(),
    {
        let out = SequentialWorkflow {
            name: name.to_owned(),
            agents: Vec::new(),
            status: WorkflowStatus::Idle,
            cursor: 0,
            input: String::new(),
            trace: Vec::new(),
            failure: None,
        };
        assert(out@.trace =~= Seq::<TraceEntryView>::empty());
        assert(out.agent_names() =~= Seq::<Seq<char>>::empty());
        out
    }

    /// This workflow with `agent` at the end of the chain.
    pub fn add_agent(self, agent: Agent<T>) -> (out: Self)
        ensures
            out@ == self@,
            out.spec_name() == self.spec_name(),
            out.agents() == self.agents().push(agent),
            out.agent_names() == self.agent_names().push(agent.spec_config().name),
    {
        let ghost before = self.agents@;
        let mut agents = self.agents;
        agents.push(agent);
        assert(names_of(agents@) =~= names_of(before).push(agent.spec_config().name));
        SequentialWorkflow { agents, ..self }
    }

    /// The workflow's name.
    pub fn name(&self) -> (out: &str)
        ensures
            out@ == self.spec_name(),
    {
        self.name.as_str()
    }

    /// How many agents the chain has.
    pub fn len(&self) -> (out: usize)
        ensures
            out == self.agent_names().len(),
            out == self.agents().len(),
    {
        self.agents.len()
    }

    /// Where the workflow stands.
    pub fn status(&self) -> (out: WorkflowStatus)
        ensures
            out == self@.status,
    {
        self.status
    }

    /// The agent that is to run and what it receives, while a run is under way.
    pub fn current(&self) -> (out: Option<(usize, &str)>)
        ensures
            out is Some <==> is_running(self.agent_names(), self@),
            out matches Some((index, input)) ==> index == self@.cursor && input@ == self@.input,
    {
        if self.status == WorkflowStatus::Running && self.cursor < self.agents.len() {
            Some((self.cursor, self.input.as_str()))
        } else {
            None
        }
    }

    /// Begins a run on `task`, whatever went before.
    pub fn begin(&mut self, task: &str)
        ensures
            final(self)@ == begin(old(self).agent_names(), task@),
            final(self).agents() == old(self).agents(),
            final(self).agent_names() == old(self).agent_names(),
            final(self).spec_name() == old(self).spec_name(),
    {
        self.cursor = 0;
        self.input = task.to_owned();
        self.trace = Vec::new();
        self.failure = None;
        self.status = if self.agents.len() == 0 {
            WorkflowStatus::Completed
        } else {
            WorkflowStatus::Running
        };
        assert(self@.trace =~= Seq::<TraceEntryView>::empty());
    }

    /// Takes how the agent at the cursor ended.
    ///
    /// Where no agent's outcome is awaited, the outcome is dropped and
    /// nothing changes.
    pub fn on_agent_outcome(&mut self, outcome: AgentOutcome)
        ensures
            final(self)@ == on_outcome(old(self).agent_names(), old(self)@, outcome@),
            final(self).agents() == old(self).agents(),
            final(self).agent_names() == old(self).agent_names(),
            final(self).spec_name() == old(self).spec_name(),
    {
        if !(self.status == WorkflowStatus::Running && self.cursor < self.agents.len()) {
            return ;
        }
        match outcome {
            AgentOutcome::Completed(output) => {
                let ghost before = self.trace@;
                let entry = TraceEntry {
                    agent_name: self.agents[self.cursor].name().to_owned(),
                    output: output.clone(),
                };
                self.trace.push(entry);
                assert(trace_view(self.trace@) =~= trace_view(before).push(entry@));
                self.input = output;
                if self.cursor + 1 < self.agents.len() {
                    self.cursor = self.cursor + 1;
                } else {
                    self.status = WorkflowStatus::Completed;
                }
            },
            AgentOutcome::Failed(error) => {
                self.failure = Some(error);
                self.status = WorkflowStatus::Failed;
            },
            AgentOutcome::Cancelled => {
                self.status = WorkflowStatus::Cancelled;
            },
        }
    }

    /// How the run ended, once it has.
    pub fn outcome(&self) -> (out: Option<WorkflowOutcome>)
        ensures
            out matches Some(outcome) ==> reports(outcome, self.agent_names(), self@),
            self@.status == WorkflowStatus::Completed || self@.status == WorkflowStatus::Cancelled
                ==> out is Some,
            self@.status == WorkflowStatus::Failed && self@.failure is Some && self@.cursor
                < self.agent_names().len() ==> out is Some,
            self@.status == WorkflowStatus::Idle || self@.status == WorkflowStatus::Running
                ==> out is None,
    {
        match self.status {
            WorkflowStatus::Completed => Some(
                WorkflowOutcome::Completed(
                    RunResult { output: self.input.clone(), trace: clone_trace(&self.trace) },
                ),
            ),
            WorkflowStatus::Failed => match &self.failure {
                Some(cause) => if self.cursor < self.agents.len() {
                    Some(
                        WorkflowOutcome::Failed(
                            WorkflowError {
                                agent_index: self.cursor,
                                agent_name: self.agents[self.cursor].name().to_owned(),
                                cause: cause.clone(),
                                trace: clone_trace(&self.trace),
                            },
                        ),
                    )
                } else {
                    None
                },
                None => None,
            },
            WorkflowStatus::Cancelled => Some(WorkflowOutcome::Cancelled),
            _ => None,
        }
    }
}

impl<T: Tool> SequentialWorkflow<T> {
    /// Cancels a run under way.
    pub fn cancel(&mut self)
        ensures
            final(self)@ == on_outcome(
                old(self).agent_names(),
                old(self)@,
                AgentOutcomeView::Cancelled,
            ),
            final(self).agents() == old(self).agents(),
            final(self).agent_names() == old(self).agent_names(),
            final(self).spec_name() == old(self).spec_name(),
    {
        self.on_agent_outcome(AgentOutcome::Cancelled);
    }

    /// Runs the chain on `task`: each agent in turn, the first on the task
    /// and every other on the output of the one before it. The run stops at
    /// the first agent that fails; the agents after it do not run.
    ///
    /// A workflow without agents hands the task back unchanged.
    pub fn run<M: ModelTransport>(&mut self, model: &mut M, task: &str) -> (out: Result<
        RunResult,
        WorkflowError,
    >)
        ensures
            final(self).agent_names() == old(self).agent_names(),
            final(self).spec_name() == old(self).spec_name(),
            agents_ran(old(self).agents(), final(self).agents(), task@, final(self)@),
            exists|outcomes: Seq<AgentOutcomeView>|
                final(self)@ == replay(
                    old(self).agent_names(),
                    begin(old(self).agent_names(), task@),
                    outcomes,
                ),
            match out {
                Ok(result) => reports(
                    WorkflowOutcome::Completed(result),
                    old(self).agent_names(),
                    final(self)@,
                ),
                Err(error) => reports(
                    WorkflowOutcome::Failed(error),
                    old(self).agent_names(),
                    final(self)@,
                ),
            },
            old(self).agent_names().len() == 0 ==> (out matches Ok(result) && result.output@
                == task@ && result.trace@.len() == 0),
    {
        let ghost names = self.agent_names();
        self.begin(task);
        let ghost mut outcomes: Seq<AgentOutcomeView> = Seq::empty();
        while self.status == WorkflowStatus::Running && self.cursor < self.agents.len()
            invariant
                self.agent_names() == names,
                self.spec_name() == old(self).spec_name(),
                self@ == replay(names, begin(names, task@), outcomes),
                self@.status == WorkflowStatus::Running || self@.status
                    == WorkflowStatus::Completed || self@.status == WorkflowStatus::Failed,
                self@.status == WorkflowStatus::Failed ==> self@.failure is Some && self@.cursor
                    < names.len(),
                self@.status == WorkflowStatus::Running ==> self@.cursor < names.len(),
                names.len() == 0 ==> self@ == begin(names, task@),
                names.len() == old(self).agents().len(),
                agents_ran(old(self).agents(), self.agents(), task@, self@),
                self@.status == WorkflowStatus::Running ==> self@.cursor == self@.trace.len()
                    && self@.input == input_of(task@, self@.trace, self@.cursor as int),
            decreases
                    (if self@.status == WorkflowStatus::Running {
                        names.len() - self@.cursor
                    } else {
                        0
                    }),
        {
            let ghost before_agents = self.agents@;
            let ghost before_state = self@;
            let input = self.input.clone();
            let at = self.cursor;
            let outcome = self.agents[at].run(model, input.as_str());
            proof {
                assert(self.agents@[at as int].same_setup(&before_agents[at as int]));
                assert(names_of(self.agents@) =~= names_of(before_agents));
                assert(names[at as int] == old(self).agents()[at as int].spec_config().name);
                let ghost longer = outcomes.push(outcome@);
                assert(longer.drop_last() =~= outcomes);
                outcomes = longer;
            }
            let ghost ran_agents = self.agents@;
            self.on_agent_outcome(outcome);
            proof {
                let first = old(self).agents();
                let state = self@;
                assert forall|i: int| 0 <= i < ran_agents.len() implies (
                #[trigger] ran_agents[i]).same_setup(&first[i]) by {
                    assert(before_agents[i].same_setup(&first[i]));
                }
                assert forall|i: int| 0 <= i < state.trace.len() implies {
                    let agent = (#[trigger] ran_agents[i])@;
                    &&& ran_on(agent, first[i].spec_config(), input_of(task@, state.trace, i))
                    &&& agent.phase == AgentPhase::Completed
                    &&& agent.output == state.trace[i].output
                    &&& first[i].spec_config().name == state.trace[i].agent_name
                } by {
                    if i < before_state.trace.len() {
                        assert(ran_agents[i] == before_agents[i]);
                        assert(state.trace[i] == before_state.trace[i]);
                        assert(input_of(task@, state.trace, i) == input_of(
                            task@,
                            before_state.trace,
                            i,
                        ));
                    }
                }
                assert forall|i: int| agents_run(state) <= i < ran_agents.len() implies (
                #[trigger] ran_agents[i]) == first[i] by {
                    assert(before_agents[i] == first[i]);
                }
            }
        }
        proof {
            assert(self@.status != WorkflowStatus::Running);
        }
        match self.outcome() {
            Some(WorkflowOutcome::Completed(result)) => {
                assert(trace_view(result.trace@).len() == result.trace@.len());
                Ok(result)
            },
            Some(WorkflowOutcome::Failed(error)) => Err(error),
            _ => {
                proof {
                    assert(false);
                }
                Ok(RunResult { output: String::new(), trace: Vec::new() })
            },
        }
    }
}

impl<T: Tool> SequentialWorkflow<T> {
    /// The agent at position `index` of the chain.
    pub fn agent(&self, index: usize) -> (out: Option<&Agent<T>>)
        ensures
            out is Some <==> index < self.agents().len(),
            out matches Some(agent) ==> *agent == self.agents()[index as int],
    {
        if index < self.agents.len() {
            Some(&self.agents[index])
        } else {
            None
        }
    }

    /// The agent at position `index` of the chain, to step it through its run.
    pub fn agent_mut(&mut self, index: usize) -> (out: &mut Agent<T>)
        requires
            index < old(self).agents().len(),
        ensures
            *out == old(self).agents()[index as int],
            final(self).agents() == old(self).agents().update(index as int, *final(out)),
            final(self)@ == old(self)@,
            final(self).spec_name() == old(self).spec_name(),
    {
        &mut self.agents[index]
    }
}

} // verus!
