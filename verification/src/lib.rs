//! Leader-orchestrated teams of agents.
//!
//! A [`TeamWorkflow`] holds a registry of models and a leader agent. To execute a task, the
//! leader analyzes it and answers with an [`OrchestrationPlan`]: worker agents, each with a
//! registered model, the connections between them, the agents to start with and the agents
//! whose output is the result. The library decides what an execution does from step to step;
//! the host performs each [`Action`] (it talks to models, builds agents and runs the workflow
//! graph) and reports back with an [`Event`].
pub mod agent;
pub mod answer;
pub mod error;
pub mod execution;
pub mod laws;
pub mod maps;
pub mod model;
pub mod plan;
pub mod prompt;
pub mod team;
pub mod text;
pub mod text_laws;
pub mod view_laws;

pub use crate::agent::{AgentBuilder, AgentConfig, AgentHandle};
pub use crate::error::{AgentError, GraphWorkflowError, JsonError, TeamWorkflowError};
pub use crate::execution::{Action, Event, Execution};
pub use crate::model::{LLMProvider, ModelDescription};
pub use crate::plan::{AgentConnection, OrchestrationPlan, Temperature, WorkerAgent};
pub use crate::prompt::{orchestrate, OrchestrateTool};
pub use crate::team::{EngineSetup, TeamWorkflow};
