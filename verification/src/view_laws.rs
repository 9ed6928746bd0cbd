//! What the views of the library's types hold: all that the values hold, each part in its place.
use vstd::prelude::*;
use crate::agent::AgentConfig;
use crate::error::{
    AgentError, GraphWorkflowError, JsonError, TeamWorkflowError, TeamWorkflowErrorView,
};
use crate::execution::{Action, ActionView, Event, EventView, Execution, ExecutionView};
use crate::model::ModelDescription;
use crate::plan::{AgentConnection, OrchestrationPlan, WorkerAgent};
use vstd::std_specs::convert::FromSpec;

verus! {

/// Each string is read whole, at its place.
pub proof fn law_strings_are_read_in_order(strings: Seq<String>)
    ensures
        crate::text::texts(strings).len() == strings.len(),
        forall|i: int|
            0 <= i < strings.len() ==> #[trigger] crate::text::texts(strings)[i] == strings[i]@,
{
}

/// A description is read with all its parts.
pub proof fn law_description_is_read_whole(d: ModelDescription)
    ensures
        d@.name == d.name@,
        d@.description == d.description@,
        d@.capabilities.len() == d.capabilities@.len(),
        forall|i: int|
            0 <= i < d.capabilities@.len() ==> #[trigger] d@.capabilities[i]
                == d.capabilities@[i]@,
        d@.context_window == d.context_window,
        d@.max_tokens == d.max_tokens,
{
}

/// A worker is read with all its settings.
pub proof fn law_worker_is_read_whole(w: WorkerAgent)
    ensures
        w@.name == w.name@,
        w@.description == w.description@,
        w@.system_prompt == w.system_prompt@,
        w@.model == w.model@,
        w@.temperature == w.temperature,
        w@.max_tokens == w.max_tokens,
{
}

/// A connection is read from its source to its target.
pub proof fn law_connection_is_read_whole(c: AgentConnection)
    ensures
        c@.from == c.from@,
        c@.to == c.to@,
{
}

/// A plan is read with all its workers, connections and agents, each in its order.
pub proof fn law_plan_is_read_whole(p: OrchestrationPlan)
    ensures
        p@.workers.len() == p.workers@.len(),
        forall|i: int|
            0 <= i < p.workers@.len() ==> #[trigger] p@.workers[i] == p.workers@[i]@,
        p@.connections.len() == p.connections@.len(),
        forall|i: int|
            0 <= i < p.connections@.len() ==> #[trigger] p@.connections[i]
                == p.connections@[i]@,
        p@.starting_agents.len() == p.starting_agents@.len(),
        forall|i: int|
            0 <= i < p.starting_agents@.len() ==> #[trigger] p@.starting_agents[i]
                == p.starting_agents@[i]@,
        p@.output_agents.len() == p.output_agents@.len(),
        forall|i: int|
            0 <= i < p.output_agents@.len() ==> #[trigger] p@.output_agents[i]
                == p.output_agents@[i]@,
{
}

/// What an agent is built from is read with all its settings.
pub proof fn law_config_is_read_whole(c: AgentConfig)
    ensures
        c@.builder == c.builder,
        c@.provider == c.provider,
        c@.agent_name == c.agent_name@,
        c@.description == c.description@,
        c@.system_prompt == c.system_prompt@,
        c@.temperature == c.temperature,
        c@.max_tokens == c.max_tokens,
{
}

/// An error is read with its kind and its message.
pub proof fn law_error_is_read_whole(e: TeamWorkflowError)
    ensures
        e matches TeamWorkflowError::ModelNotFound(name) ==> e@
            == TeamWorkflowErrorView::ModelNotFound(name@),
        e matches TeamWorkflowError::AgentError(cause) ==> e@ == TeamWorkflowErrorView::AgentError(
            cause.message@,
        ),
        e is LeaderAgentNotSet ==> e@ == TeamWorkflowErrorView::LeaderAgentNotSet,
        e matches TeamWorkflowError::GraphWorkflowError(cause) ==> e@
            == TeamWorkflowErrorView::GraphWorkflowError(cause.message@),
        e matches TeamWorkflowError::JsonError(cause) ==> e@ == TeamWorkflowErrorView::JsonError(
            cause.message@,
        ),
{
}

/// The error of a builder, of the engine or of the parser becomes an error of its own kind.
pub proof fn law_errors_keep_their_kind(
    agent: AgentError,
    graph: GraphWorkflowError,
    json: JsonError,
)
    ensures
        <TeamWorkflowError as FromSpec<AgentError>>::from_spec(agent)
            == TeamWorkflowError::AgentError(agent),
        <TeamWorkflowError as FromSpec<GraphWorkflowError>>::from_spec(graph)
            == TeamWorkflowError::GraphWorkflowError(graph),
        <TeamWorkflowError as FromSpec<JsonError>>::from_spec(json)
            == TeamWorkflowError::JsonError(json),
{
}

/// An outcome is read as what the agent said, or as the message of its failure.
pub proof fn law_outcome_is_read_whole(output: String, e: GraphWorkflowError)
    ensures
        crate::maps::outcome_view(Ok(output)) == Ok::<Seq<char>, Seq<char>>(output@),
        crate::maps::outcome_view(Err(e)) == Err::<Seq<char>, Seq<char>>(e.message@),
{
}

/// An action is read with its kind and all that it is about.
pub proof fn law_action_is_read_whole(a: Action)
    ensures
        match a {
            Action::NameAgent { agent } => a@ == (ActionView::NameAgent { agent }),
            Action::ExecuteAgent { name, input } => a@ == (ActionView::ExecuteAgent {
                name: name@,
                input: input@,
            }),
            Action::ParsePlan { analysis } => a@ == (ActionView::ParsePlan {
                analysis: analysis@,
            }),
            Action::BuildAgent { config } => a@ == (ActionView::BuildAgent { config: config@ }),
            Action::RegisterAgent { agent } => a@ == (ActionView::RegisterAgent { agent }),
            Action::ConnectAgents { from, to } => a@ == (ActionView::ConnectAgents {
                from: from@,
                to: to@,
            }),
            Action::ExecuteWorkflow { start_agents, input } => {
                &&& a@ is ExecuteWorkflow
                &&& a@->ExecuteWorkflow_input == input@
                &&& a@->start_agents.len() == start_agents@.len()
                &&& forall|i: int|
                    0 <= i < start_agents@.len() ==> #[trigger] a@->start_agents[i]
                        == start_agents@[i]@
            },
            Action::Return { result: Ok(answers) } => a@ == (ActionView::Return {
                result: Ok(crate::maps::held_answers(answers)),
            }),
            Action::Return { result: Err(e) } => a@ == (ActionView::Return { result: Err(e@) }),
        },
{
}

/// An event is read with its kind and all that came of the action.
pub proof fn law_event_is_read_whole(e: Event)
    ensures
        match e {
            Event::AgentNamed { name } => e@ == (EventView::AgentNamed { name: name@ }),
            Event::AgentExecuted { output: Ok(text) } => e@ == (EventView::AgentExecuted {
                output: Ok(text@),
            }),
            Event::AgentExecuted { output: Err(cause) } => e@ == (EventView::AgentExecuted {
                output: Err(cause.message@),
            }),
            Event::PlanParsed { plan: Ok(plan) } => e@ == (EventView::PlanParsed {
                plan: Ok(plan@),
            }),
            Event::PlanParsed { plan: Err(cause) } => e@ == (EventView::PlanParsed {
                plan: Err(cause.message@),
            }),
            Event::AgentBuilt { agent: Ok(agent) } => e@ == (EventView::AgentBuilt {
                agent: Ok(agent),
            }),
            Event::AgentBuilt { agent: Err(cause) } => e@ == (EventView::AgentBuilt {
                agent: Err(cause.message@),
            }),
            Event::AgentRegistered => e@ == EventView::AgentRegistered,
            Event::AgentsConnected { connected: Ok(_) } => e@ == (EventView::AgentsConnected {
                connected: Ok(()),
            }),
            Event::AgentsConnected { connected: Err(cause) } => e@ == (
            EventView::AgentsConnected { connected: Err(cause.message@) }),
            Event::WorkflowExecuted { outcomes: Ok(m) } => e@ == (EventView::WorkflowExecuted {
                outcomes: Ok(crate::maps::held_outcomes(m)),
            }),
            Event::WorkflowExecuted { outcomes: Err(cause) } => e@ == (
            EventView::WorkflowExecuted { outcomes: Err(cause.message@) }),
        },
{
}

/// An execution is read with how far it has come and all that it still needs.
pub proof fn law_execution_is_read_whole(x: Execution)
    ensures
        match x {
            Execution::Naming { task } => x@ == (ExecutionView::Naming { task: task@ }),
            Execution::Analyzing { task } => x@ == (ExecutionView::Analyzing { task: task@ }),
            Execution::Parsing { task } => x@ == (ExecutionView::Parsing { task: task@ }),
            Execution::Building { task, plan, worker } => x@ == (ExecutionView::Building {
                task: task@,
                plan: plan@,
                worker: worker as nat,
            }),
            Execution::Registering { task, plan, worker } => x@ == (ExecutionView::Registering {
                task: task@,
                plan: plan@,
                worker: worker as nat,
            }),
            Execution::Connecting { task, plan, connection } => x@ == (
            ExecutionView::Connecting {
                task: task@,
                plan: plan@,
                connection: connection as nat,
            }),
            Execution::Running { output_agents } => {
                &&& x@ is Running
                &&& x@->output_agents.len() == output_agents@.len()
                &&& forall|i: int|
                    0 <= i < output_agents@.len() ==> #[trigger] x@->output_agents[i]
                        == output_agents@[i]@
            },
            Execution::Finished => x@ == ExecutionView::Finished,
        },
{
}

} // verus!
