//! Plans that a leader makes for its team.
use vstd::prelude::*;

verus! {

/// A sampling temperature, held as the bits of the IEEE 754 double that it is.
#[derive(Clone, Copy, Debug, PartialEq, Eq, Structural)]
pub struct Temperature {
    pub bits: u64,
}

/// Represents a worker agent in the orchestration plan.
#[derive(Debug)]
pub struct WorkerAgent {
    /// Name of the worker agent
    pub name: String,
    /// Description of the worker agent
    pub description: String,
    /// System prompt for the worker agent
    pub system_prompt: String,
    /// Model to use for the worker agent
    pub model: String,
    /// Temperature setting for the worker agent
    pub temperature: Temperature,
    /// Maximum tokens for the worker agent
    pub max_tokens: usize,
}

/// Represents a connection between agents in the orchestration plan.
#[derive(Debug)]
pub struct AgentConnection {
    /// Source agent name
    pub from: String,
    /// Target agent name
    pub to: String,
}

/// Represents the complete orchestration plan created by the leader agent.
#[derive(Debug)]
pub struct OrchestrationPlan {
    /// List of worker agents to create
    pub workers: Vec<WorkerAgent>,
    /// List of connections between agents
    pub connections: Vec<AgentConnection>,
    /// The starting agents, there may be multiple
    pub starting_agents: Vec<String>,
    /// Agents who need to output results to the user, there may be multiple
    pub output_agents: Vec<String>,
}

/// What a [`WorkerAgent`] holds.
pub struct WorkerAgentView {
    pub name: Seq<char>,
    pub description: Seq<char>,
    pub system_prompt: Seq<char>,
    pub model: Seq<char>,
    pub temperature: Temperature,
    pub max_tokens: nat,
}

/// What an [`AgentConnection`] holds.
pub struct AgentConnectionView {
    pub from: Seq<char>,
    pub to: Seq<char>,
}

/// What an [`OrchestrationPlan`] holds.
pub struct OrchestrationPlanView {
    pub workers: Seq<WorkerAgentView>,
    pub connections: Seq<AgentConnectionView>,
    pub starting_agents: Seq<Seq<char>>,
    pub output_agents: Seq<Seq<char>>,
}

impl View for WorkerAgent {
    type V = WorkerAgentView;

    open spec fn view(&self) -> WorkerAgentView {
        WorkerAgentView {
            name: self.name@,
            description: self.description@,
            system_prompt: self.system_prompt@,
            model: self.model@,
            temperature: self.temperature,
            max_tokens: self.max_tokens as nat,
        }
    }
}

impl View for AgentConnection {
    type V = AgentConnectionView;

    open spec fn view(&self) -> AgentConnectionView {
        AgentConnectionView { from: self.from@, to: self.to@ }
    }
}

impl View for OrchestrationPlan {
    type V = OrchestrationPlanView;

    open spec fn view(&self) -> OrchestrationPlanView {
        OrchestrationPlanView {
            workers: self.workers@.map_values(|w: WorkerAgent| w@),
            connections: self.connections@.map_values(|c: AgentConnection| c@),
            starting_agents: crate::text::texts(self.starting_agents@),
            output_agents: crate::text::texts(self.output_agents@),
        }
    }
}

} // verus!
