//! A fixed chain of agents, as a state machine over mathematical values: each
//! agent's output is the next agent's input.

use vstd::prelude::*;
use crate::error::TransportErrorView;

verus! {

/// Where a workflow stands.
#[derive(Clone, Copy, Debug, PartialEq, Eq, Structural)]
pub enum WorkflowStatus {
    /// No run has begun.
    Idle,
    /// The agent at the cursor is to run on the input.
    Running,
    /// Every agent has completed.
    Completed,
    /// The agent at the cursor failed; the agents after it never ran.
    Failed,
    /// The run was cancelled while the agent at the cursor ran.
    Cancelled,
}

/// How one agent's run ended.
pub enum AgentOutcomeView {
    Completed(Seq<char>),
    Failed(TransportErrorView),
    Cancelled,
}

/// One step of the trace: an agent and what it gave.
pub struct TraceEntryView {
    pub agent_name: Seq<char>,
    pub output: Seq<char>,
}

/// The state of a workflow's run.
pub struct WorkflowView {
    pub status: WorkflowStatus,
    /// The position of the agent that runs, or that ended the run.
    pub cursor: nat,
    /// What the agent at the cursor receives; once the run has completed,
    /// the result.
    pub input: Seq<char>,
    /// The agents that completed and their outputs, in the order they ran.
    pub trace: Seq<TraceEntryView>,
    /// The cause, once the run is `Failed`.
    pub failure: Option<TransportErrorView>,
}

/// The state of a workflow that has not run.
pub open spec fn idle() -> WorkflowView {
    WorkflowView {
        status: WorkflowStatus::Idle,
        cursor: 0,
        input: Seq::empty(),
        trace: Seq::empty(),
        failure: None,
    }
}

/// The state in which a run on `task` begins: the first agent receives the
/// task. A workflow without agents has completed at once, and its result is
/// the task.
pub open spec fn begin(names: Seq<Seq<char>>, task: Seq<char>) -> WorkflowView {
    WorkflowView {
        status: if names.len() == 0 {
            WorkflowStatus::Completed
        } else {
            WorkflowStatus::Running
        },
        input: task,
        ..idle()
    }
}

/// The workflow awaits the outcome of an agent.
pub open spec fn is_running(names: Seq<Seq<char>>, state: WorkflowView) -> bool {
    state.status == WorkflowStatus::Running && state.cursor < names.len()
}

/// The state after the agent at the cursor ended with `outcome`.
///
/// An output joins the trace and becomes the input of the next agent, or the
/// result where there is none. A failure ends the run where it stands.
pub open spec fn on_outcome(
    names: Seq<Seq<char>>,
    state: WorkflowView,
    outcome: AgentOutcomeView,
) -> WorkflowView {
    if !is_running(names, state) {
        state
    } else {
        match outcome {
            AgentOutcomeView::Completed(output) => {
                let trace = state.trace.push(
                    TraceEntryView { agent_name: names[state.cursor as int], output },
                );
                if state.cursor + 1 < names.len() {
                    WorkflowView { cursor: state.cursor + 1, input: output, trace, ..state }
                } else {
                    WorkflowView {
                        status: WorkflowStatus::Completed,
                        input: output,
                        trace,
                        ..state
                    }
                }
            },
            AgentOutcomeView::Failed(error) => WorkflowView {
                status: WorkflowStatus::Failed,
                failure: Some(error),
                ..state
            },
            AgentOutcomeView::Cancelled => WorkflowView {
                status: WorkflowStatus::Cancelled,
                ..state
            },
        }
    }
}

/// The state after the outcomes of `outcomes`, taken one after the other.
pub open spec fn replay(
    names: Seq<Seq<char>>,
    state: WorkflowView,
    outcomes: Seq<AgentOutcomeView>,
) -> WorkflowView
    decreases outcomes.len(),
{
    if outcomes.len() == 0 {
        state
    } else {
        on_outcome(names, replay(names, state, outcomes.drop_last()), outcomes.last())
    }
}

/// The outcomes of agents that completed with `outputs`.
pub open spec fn completions(outputs: Seq<Seq<char>>) -> Seq<AgentOutcomeView> {
    Seq::new(outputs.len(), |i: int| AgentOutcomeView::Completed(outputs[i]))
}

/// The trace of the first `outputs.len()` agents completing with `outputs`.
pub open spec fn trace_of(names: Seq<Seq<char>>, outputs: Seq<Seq<char>>) -> Seq<TraceEntryView> {
    Seq::new(
        outputs.len(),
        |i: int| TraceEntryView { agent_name: names[i], output: outputs[i] },
    )
}

/// What the agent at position `index` receives in a run on `task` with the
/// trace `trace`: the task for the first agent, and for every other the
/// output of the agent before it.
pub open spec fn input_of(task: Seq<char>, trace: Seq<TraceEntryView>, index: int) -> Seq<char> {
    if index <= 0 {
        task
    } else {
        trace[index - 1].output
    }
}

/// How many agents of the chain have run: those of the trace, and the one
/// that failed.
pub open spec fn agents_run(state: WorkflowView) -> nat {
    if state.status == WorkflowStatus::Failed {
        state.trace.len() + 1
    } else {
        state.trace.len()
    }
}

/// A workflow without agents hands the task back unchanged.
pub proof fn law_empty_workflow(task: Seq<char>)
    ensures
        begin(Seq::empty(), task).status == WorkflowStatus::Completed,
        begin(Seq::empty(), task).input == task,
        begin(Seq::empty(), task).trace.len() == 0,
{
}

/// The first agent receives the task.
pub proof fn law_first_input_is_task(names: Seq<Seq<char>>, task: Seq<char>)
    requires
        names.len() > 0,
    ensures
        is_running(names, begin(names, task)),
        begin(names, task).cursor == 0,
        begin(names, task).input == task,
{
}

/// Sequential composition: where an agent completes and another follows it,
/// that one is next, and what it receives is the output, unchanged.
pub proof fn law_output_feeds_next(names: Seq<Seq<char>>, state: WorkflowView, output: Seq<char>)
    requires
        is_running(names, state),
        state.cursor + 1 < names.len(),
    ensures
        ({
            let next = on_outcome(names, state, AgentOutcomeView::Completed(output));
            &&& is_running(names, next)
            &&& next.cursor == state.cursor + 1
            &&& next.input == output
        }),
{
}

/// The last agent's output is the result.
pub proof fn law_last_output_is_result(names: Seq<Seq<char>>, state: WorkflowView, output: Seq<char>)
    requires
        is_running(names, state),
        state.cursor + 1 == names.len(),
    ensures
        ({
            let last = on_outcome(names, state, AgentOutcomeView::Completed(output));
            &&& last.status == WorkflowStatus::Completed
            &&& last.input == output
        }),
{
}

/// After the first agents completed, the next one runs on the last output,
/// and the trace holds one entry for each that completed, in order.
pub proof fn law_completions(names: Seq<Seq<char>>, task: Seq<char>, outputs: Seq<Seq<char>>)
    requires
        outputs.len() <= names.len(),
        names.len() > 0,
    ensures
        ({
            let state = replay(names, begin(names, task), completions(outputs));
            &&& state.trace == trace_of(names, outputs)
            &&& state.failure is None
            &&& state.input == if outputs.len() == 0 {
                task
            } else {
                outputs.last()
            }
            &&& if outputs.len() < names.len() {
                state.status == WorkflowStatus::Running && state.cursor == outputs.len()
            } else {
                state.status == WorkflowStatus::Completed
            }
        }),
    decreases outputs.len(),
{
    if outputs.len() == 0 {
        assert(replay(names, begin(names, task), completions(outputs)).trace =~= trace_of(
            names,
            outputs,
        ));
    } else {
        let front = outputs.drop_last();
        law_completions(names, task, front);
        assert(completions(outputs).drop_last() =~= completions(front));
        assert(completions(outputs).last() == AgentOutcomeView::Completed(outputs.last()));
        let before = replay(names, begin(names, task), completions(front));
        assert(trace_of(names, front).push(
            TraceEntryView { agent_name: names[front.len() as int], output: outputs.last() },
        ) =~= trace_of(names, outputs));
    }
}

/// Failure propagation: where the agents before position `outputs.len()`
/// completed and the agent at that position fails, the run has failed at
/// that position, the trace holds exactly the agents that completed, and
/// nothing that comes after changes this.
pub proof fn law_failure_propagation(
    names: Seq<Seq<char>>,
    task: Seq<char>,
    outputs: Seq<Seq<char>>,
    error: TransportErrorView,
    later: Seq<AgentOutcomeView>,
)
    requires
        outputs.len() < names.len(),
    ensures
        ({
            let failed = on_outcome(
                names,
                replay(names, begin(names, task), completions(outputs)),
                AgentOutcomeView::Failed(error),
            );
            &&& failed.status == WorkflowStatus::Failed
            &&& failed.cursor == outputs.len()
            &&& failed.failure == Some(error)
            &&& failed.trace == trace_of(names, outputs)
            &&& replay(names, failed, later) == failed
        }),
{
    law_completions(names, task, outputs);
    let failed = on_outcome(
        names,
        replay(names, begin(names, task), completions(outputs)),
        AgentOutcomeView::Failed(error),
    );
    lemma_ended_stays(names, failed, later);
}

/// A run that has ended takes no further outcome.
pub proof fn lemma_ended_stays(
    names: Seq<Seq<char>>,
    state: WorkflowView,
    outcomes: Seq<AgentOutcomeView>,
)
    requires
        !is_running(names, state),
    ensures
        replay(names, state, outcomes) == state,
    decreases outcomes.len(),
{
    if outcomes.len() > 0 {
        lemma_ended_stays(names, state, outcomes.drop_last());
    }
}

} // verus!
