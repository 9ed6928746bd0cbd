//! The course of an execution: what to do next, given what the last action led to.
use vstd::prelude::*;
use dashmap::DashMap;
use crate::agent::{AgentConfig, AgentConfigView, AgentHandle};
use crate::answer::combine_results;
use crate::error::{
    AgentError, GraphWorkflowError, JsonError, TeamWorkflowError, TeamWorkflowErrorView,
};
use crate::maps::{Answers, Models, Outcomes};
use crate::plan::{OrchestrationPlan, OrchestrationPlanView};
use crate::prompt::to_analysis_task;
use crate::team::TeamWorkflow;

verus! {

/// What the host has to do.
#[derive(Debug)]
pub enum Action {
    /// Ask the agent for its name
    NameAgent { agent: AgentHandle },
    /// Have the workflow run one agent on the input
    ExecuteAgent { name: String, input: String },
    /// Parse the leader's analysis into an orchestration plan
    ParsePlan { analysis: String },
    /// Build an agent
    BuildAgent { config: AgentConfig },
    /// Register the agent with the workflow
    RegisterAgent { agent: AgentHandle },
    /// Connect two agents of the workflow, with the default flow
    ConnectAgents { from: String, to: String },
    /// Run the workflow on the input, from the starting agents
    ExecuteWorkflow { start_agents: Vec<String>, input: String },
    /// Return the result of the execution
    Return { result: Result<DashMap<String, String>, TeamWorkflowError> },
}

/// What an action led to.
#[derive(Debug)]
pub enum Event {
    /// The agent has the name
    AgentNamed { name: String },
    /// The agent gave its output, or the workflow failed
    AgentExecuted { output: Result<String, GraphWorkflowError> },
    /// The analysis is a plan, or is none
    PlanParsed { plan: Result<OrchestrationPlan, JsonError> },
    /// The agent is built, or could not be
    AgentBuilt { agent: Result<AgentHandle, AgentError> },
    /// The agent is registered
    AgentRegistered,
    /// The agents are connected, or could not be
    AgentsConnected { connected: Result<(), GraphWorkflowError> },
    /// The workflow gave the outcome of each agent that ran, or failed
    WorkflowExecuted {
        outcomes: Result<DashMap<String, Result<String, GraphWorkflowError>>, GraphWorkflowError>,
    },
}

/// How far an execution has come: the action that it waits for, and what it still needs.
#[derive(Debug)]
pub enum Execution {
    /// The leader is asked for its name
    Naming { task: String },
    /// The leader analyzes the task
    Analyzing { task: String },
    /// The analysis is parsed
    Parsing { task: String },
    /// The agent of worker number `worker` is built
    Building { task: String, plan: OrchestrationPlan, worker: usize },
    /// The agent of worker number `worker` is registered
    Registering { task: String, plan: OrchestrationPlan, worker: usize },
    /// Connection number `connection` is made
    Connecting { task: String, plan: OrchestrationPlan, connection: usize },
    /// The workflow runs
    Running { output_agents: Vec<String> },
    /// The result is returned
    Finished,
}

/// What an [`Action`] holds.
pub enum ActionView {
    NameAgent { agent: AgentHandle },
    ExecuteAgent { name: Seq<char>, input: Seq<char> },
    ParsePlan { analysis: Seq<char> },
    BuildAgent { config: AgentConfigView },
    RegisterAgent { agent: AgentHandle },
    ConnectAgents { from: Seq<char>, to: Seq<char> },
    ExecuteWorkflow { start_agents: Seq<Seq<char>>, input: Seq<char> },
    Return { result: Result<Answers, TeamWorkflowErrorView> },
}

/// What an [`Event`] holds; a failure by its message.
pub enum EventView {
    AgentNamed { name: Seq<char> },
    AgentExecuted { output: Result<Seq<char>, Seq<char>> },
    PlanParsed { plan: Result<OrchestrationPlanView, Seq<char>> },
    AgentBuilt { agent: Result<AgentHandle, Seq<char>> },
    AgentRegistered,
    AgentsConnected { connected: Result<(), Seq<char>> },
    WorkflowExecuted { outcomes: Result<Outcomes, Seq<char>> },
}

/// What an [`Execution`] holds.
pub enum ExecutionView {
    Naming { task: Seq<char> },
    Analyzing { task: Seq<char> },
    Parsing { task: Seq<char> },
    Building { task: Seq<char>, plan: OrchestrationPlanView, worker: nat },
    Registering { task: Seq<char>, plan: OrchestrationPlanView, worker: nat },
    Connecting { task: Seq<char>, plan: OrchestrationPlanView, connection: nat },
    Running { output_agents: Seq<Seq<char>> },
    Finished,
}

impl View for Action {
    type V = ActionView;

    open spec fn view(&self) -> ActionView {
        match self {
            Action::NameAgent { agent } => ActionView::NameAgent { agent: *agent },
            Action::ExecuteAgent { name, input } => ActionView::ExecuteAgent {
                name: name@,
                input: input@,
            },
            Action::ParsePlan { analysis } => ActionView::ParsePlan { analysis: analysis@ },
            Action::BuildAgent { config } => ActionView::BuildAgent { config: config@ },
            Action::RegisterAgent { agent } => ActionView::RegisterAgent { agent: *agent },
            Action::ConnectAgents { from, to } => ActionView::ConnectAgents {
                from: from@,
                to: to@,
            },
            Action::ExecuteWorkflow { start_agents, input } => ActionView::ExecuteWorkflow {
                start_agents: crate::text::texts(start_agents@),
                input: input@,
            },
            Action::Return { result } => ActionView::Return {
                result: match result {
                    Ok(answers) => Ok(crate::maps::held_answers(*answers)),
                    Err(e) => Err(e@),
                },
            },
        }
    }
}

impl View for Event {
    type V = EventView;

    open spec fn view(&self) -> EventView {
        match self {
            Event::AgentNamed { name } => EventView::AgentNamed { name: name@ },
            Event::AgentExecuted { output } => EventView::AgentExecuted {
                output: match output {
                    Ok(text) => Ok(text@),
                    Err(e) => Err(e.message@),
                },
            },
            Event::PlanParsed { plan } => EventView::PlanParsed {
                plan: match plan {
                    Ok(p) => Ok(p@),
                    Err(e) => Err(e.message@),
                },
            },
            Event::AgentBuilt { agent } => EventView::AgentBuilt {
                agent: match agent {
                    Ok(a) => Ok(*a),
                    Err(e) => Err(e.message@),
                },
            },
            Event::AgentRegistered => EventView::AgentRegistered,
            Event::AgentsConnected { connected } => EventView::AgentsConnected {
                connected: match connected {
                    Ok(_) => Ok(()),
                    Err(e) => Err(e.message@),
                },
            },
            Event::WorkflowExecuted { outcomes } => EventView::WorkflowExecuted {
                outcomes: match outcomes {
                    Ok(m) => Ok(crate::maps::held_outcomes(*m)),
                    Err(e) => Err(e.message@),
                },
            },
        }
    }
}

impl View for Execution {
    type V = ExecutionView;

    open spec fn view(&self) -> ExecutionView {
        match self {
            Execution::Naming { task } => ExecutionView::Naming { task: task@ },
            Execution::Analyzing { task } => ExecutionView::Analyzing { task: task@ },
            Execution::Parsing { task } => ExecutionView::Parsing { task: task@ },
            Execution::Building { task, plan, worker } => ExecutionView::Building {
                task: task@,
                plan: plan@,
                worker: *worker as nat,
            },
            Execution::Registering { task, plan, worker } => ExecutionView::Registering {
                task: task@,
                plan: plan@,
                worker: *worker as nat,
            },
            Execution::Connecting { task, plan, connection } => ExecutionView::Connecting {
                task: task@,
                plan: plan@,
                connection: *connection as nat,
            },
            Execution::Running { output_agents } => ExecutionView::Running {
                output_agents: crate::text::texts(output_agents@),
            },
            Execution::Finished => ExecutionView::Finished,
        }
    }
}

impl ExecutionView {
    /// The execution waits until `action` is done, or is over and `action` returns its result.
    pub open spec fn waits_for(self, action: ActionView) -> bool {
        match self {
            ExecutionView::Naming { .. } => action is NameAgent,
            ExecutionView::Analyzing { .. } => action is ExecuteAgent,
            ExecutionView::Parsing { .. } => action is ParsePlan,
            ExecutionView::Building { .. } => action is BuildAgent,
            ExecutionView::Registering { .. } => action is RegisterAgent,
            ExecutionView::Connecting { .. } => action is ConnectAgents,
            ExecutionView::Running { .. } => action is ExecuteWorkflow,
            ExecutionView::Finished => action is Return,
        }
    }

    /// The execution waits for the action that led to `event`.
    pub open spec fn expects(self, event: EventView) -> bool {
        match self {
            ExecutionView::Naming { .. } => event is AgentNamed,
            ExecutionView::Analyzing { .. } => event is AgentExecuted,
            ExecutionView::Parsing { .. } => event is PlanParsed,
            ExecutionView::Building { .. } => event is AgentBuilt,
            ExecutionView::Registering { .. } => event is AgentRegistered,
            ExecutionView::Connecting { .. } => event is AgentsConnected,
            ExecutionView::Running { .. } => event is WorkflowExecuted,
            ExecutionView::Finished => false,
        }
    }

    /// The worker or connection that the execution is at is one of its plan.
    pub open spec fn well_formed(self) -> bool {
        match self {
            ExecutionView::Building { plan, worker, .. } => worker < plan.workers.len(),
            ExecutionView::Registering { plan, worker, .. } => worker < plan.workers.len(),
            ExecutionView::Connecting { plan, connection, .. } => connection
                < plan.connections.len(),
            _ => true,
        }
    }
}

impl EventView {
    /// The event is one that `action` leads to.
    pub open spec fn answers(self, action: ActionView) -> bool {
        match action {
            ActionView::NameAgent { .. } => self is AgentNamed,
            ActionView::ExecuteAgent { .. } => self is AgentExecuted,
            ActionView::ParsePlan { .. } => self is PlanParsed,
            ActionView::BuildAgent { .. } => self is AgentBuilt,
            ActionView::RegisterAgent { .. } => self is AgentRegistered,
            ActionView::ConnectAgents { .. } => self is AgentsConnected,
            ActionView::ExecuteWorkflow { .. } => self is WorkflowExecuted,
            ActionView::Return { .. } => false,
        }
    }
}

/// The execution ends with an error.
pub open spec fn fail(e: TeamWorkflowErrorView) -> (ExecutionView, ActionView) {
    (ExecutionView::Finished, ActionView::Return { result: Err(e) })
}

/// The agents of the first `worker` workers are registered: the next is built, if its model is
/// registered. After the last worker come the connections.
pub open spec fn at_worker(
    models: Models,
    task: Seq<char>,
    plan: OrchestrationPlanView,
    worker: nat,
) -> (ExecutionView, ActionView) {
    if worker < plan.workers.len() {
        let w = plan.workers[worker as int];
        match crate::team::lookup(models, w.model) {
            Ok((provider, _)) => (
                ExecutionView::Building { task, plan, worker },
                ActionView::BuildAgent { config: crate::agent::worker_config(w, provider) },
            ),
            Err(e) => fail(e),
        }
    } else {
        at_connection(task, plan, 0)
    }
}

/// The first `connection` connections are made: the next is made. After the last the workflow
/// runs.
pub open spec fn at_connection(
    task: Seq<char>,
    plan: OrchestrationPlanView,
    connection: nat,
) -> (ExecutionView, ActionView) {
    if connection < plan.connections.len() {
        let c = plan.connections[connection as int];
        (
            ExecutionView::Connecting { task, plan, connection },
            ActionView::ConnectAgents { from: c.from, to: c.to },
        )
    } else {
        (
            ExecutionView::Running { output_agents: plan.output_agents },
            ActionView::ExecuteWorkflow { start_agents: plan.starting_agents, input: task },
        )
    }
}

/// What follows when the action that `state` waits for led to `event`.
pub open spec fn step(models: Models, state: ExecutionView, event: EventView) -> (
    ExecutionView,
    ActionView,
) {
    match (state, event) {
        (ExecutionView::Naming { task }, EventView::AgentNamed { name }) => (
            ExecutionView::Analyzing { task },
            ActionView::ExecuteAgent { name, input: crate::prompt::analysis_task(task) },
        ),
        (ExecutionView::Analyzing { task }, EventView::AgentExecuted { output }) => match output {
            Ok(analysis) => (
                ExecutionView::Parsing { task },
                ActionView::ParsePlan { analysis },
            ),
            Err(e) => fail(TeamWorkflowErrorView::GraphWorkflowError(e)),
        },
        (ExecutionView::Parsing { task }, EventView::PlanParsed { plan }) => match plan {
            Ok(p) => at_worker(models, task, p, 0),
            Err(e) => fail(TeamWorkflowErrorView::JsonError(e)),
        },
        (
            ExecutionView::Building { task, plan, worker },
            EventView::AgentBuilt { agent },
        ) => match agent {
            Ok(a) => (
                ExecutionView::Registering { task, plan, worker },
                ActionView::RegisterAgent { agent: a },
            ),
            Err(e) => fail(TeamWorkflowErrorView::AgentError(e)),
        },
        (
            ExecutionView::Registering { task, plan, worker },
            EventView::AgentRegistered,
        ) => at_worker(models, task, plan, worker + 1),
        (
            ExecutionView::Connecting { task, plan, connection },
            EventView::AgentsConnected { connected },
        ) => match connected {
            Ok(_) => at_connection(task, plan, connection + 1),
            Err(e) => fail(TeamWorkflowErrorView::GraphWorkflowError(e)),
        },
        (
            ExecutionView::Running { output_agents },
            EventView::WorkflowExecuted { outcomes },
        ) => match outcomes {
            Ok(m) => (
                ExecutionView::Finished,
                ActionView::Return {
                    result: Ok(crate::answer::combined_answers(output_agents, m)),
                },
            ),
            Err(e) => fail(TeamWorkflowErrorView::GraphWorkflowError(e)),
        },
        _ => arbitrary(),
    }
}

/// The execution ends with an error.
fn failed(e: TeamWorkflowError) -> (r: (Execution, Action))
    ensures
        (r.0@, r.1@) == fail(e@),
{
    (Execution::Finished, Action::Return { result: Err(e) })
}

/// Goes on once the agents of the first `worker` workers are registered.
fn next_worker(team: &TeamWorkflow, task: String, plan: OrchestrationPlan, worker: usize) -> (r: (
    Execution,
    Action,
))
    ensures
        (r.0@, r.1@) == at_worker(team.models(), task@, plan@, worker as nat),
{
    match team.create_worker_agents(&plan, worker) {
        Ok(Some(config)) => (
            Execution::Building { task, plan, worker },
            Action::BuildAgent { config },
        ),
        Ok(None) => next_connection(task, plan, 0),
        Err(e) => failed(e),
    }
}

/// Goes on once the first `connection` connections are made.
fn next_connection(task: String, plan: OrchestrationPlan, connection: usize) -> (r: (
    Execution,
    Action,
))
    ensures
        (r.0@, r.1@) == at_connection(task@, plan@, connection as nat),
{
    match TeamWorkflow::create_workflow_connections(&plan, connection) {
        Some(c) => (
            Execution::Connecting { task, plan, connection },
            Action::ConnectAgents { from: c.from, to: c.to },
        ),
        None => (
            Execution::Running { output_agents: plan.output_agents },
            Action::ExecuteWorkflow { start_agents: plan.starting_agents, input: task },
        ),
    }
}

impl Execution {
    /// Goes on with the execution, now that the action it waits for led to `event`. Nothing
    /// follows where the execution does not wait for an action that leads to such an event, or is
    /// at a worker or a connection that its plan does not have.
    pub fn advance(self, team: &TeamWorkflow, event: Event) -> (r: Option<(Execution, Action)>)
        ensures
            match r {
                Some((execution, action)) => {
                    &&& self@.well_formed() && self@.expects(event@)
                    &&& (execution@, action@) == step(team.models(), self@, event@)
                    &&& execution@.well_formed()
                    &&& execution@.waits_for(action@)
                },
                None => !(self@.well_formed() && self@.expects(event@)),
            },
            r is Some <==> match (self, event) {
                (Execution::Naming { .. }, Event::AgentNamed { .. }) => true,
                (Execution::Analyzing { .. }, Event::AgentExecuted { .. }) => true,
                (Execution::Parsing { .. }, Event::PlanParsed { .. }) => true,
                (Execution::Building { plan, worker, .. }, Event::AgentBuilt { .. }) => worker
                    < plan.workers@.len(),
                (Execution::Registering { plan, worker, .. }, Event::AgentRegistered) => worker
                    < plan.workers@.len(),
                (
                    Execution::Connecting { plan, connection, .. },
                    Event::AgentsConnected { .. },
                ) => connection < plan.connections@.len(),
                (Execution::Running { .. }, Event::WorkflowExecuted { .. }) => true,
                _ => false,
            },
    {
        match (self, event) {
            (Execution::Naming { task }, Event::AgentNamed { name }) => {
                let input = to_analysis_task(task.as_str());
                Some((Execution::Analyzing { task }, Action::ExecuteAgent { name, input }))
            },
            (Execution::Analyzing { task }, Event::AgentExecuted { output }) => match output {
                Ok(analysis) => Some(
                    (Execution::Parsing { task }, Action::ParsePlan { analysis }),
                ),
                Err(e) => Some(failed(TeamWorkflowError::from(e))),
            },
            (Execution::Parsing { task }, Event::PlanParsed { plan }) => match plan {
                Ok(p) => Some(next_worker(team, task, p, 0)),
                Err(e) => Some(failed(TeamWorkflowError::from(e))),
            },
            (Execution::Building { task, plan, worker }, Event::AgentBuilt { agent }) => {
                if worker >= plan.workers.len() {
                    return None;
                }
                match agent {
                    Ok(a) => Some(
                        (
                            Execution::Registering { task, plan, worker },
                            Action::RegisterAgent { agent: a },
                        ),
                    ),
                    Err(e) => Some(failed(TeamWorkflowError::from(e))),
                }
            },
            (Execution::Registering { task, plan, worker }, Event::AgentRegistered) => {
                if worker >= plan.workers.len() {
                    return None;
                }
                Some(next_worker(team, task, plan, worker + 1))
            },
            (
                Execution::Connecting { task, plan, connection },
                Event::AgentsConnected { connected },
            ) => {
                if connection >= plan.connections.len() {
                    return None;
                }
                match connected {
                    Ok(_) => Some(next_connection(task, plan, connection + 1)),
                    Err(e) => Some(failed(TeamWorkflowError::from(e))),
                }
            },
            (Execution::Running { output_agents }, Event::WorkflowExecuted { outcomes }) => {
                match outcomes {
                    Ok(m) => Some(
                        (
                            Execution::Finished,
                            Action::Return { result: Ok(combine_results(&output_agents, m)) },
                        ),
                    ),
                    Err(e) => Some(failed(TeamWorkflowError::from(e))),
                }
            },
            _ => None,
        }
    }
}

} // verus!
