//! Agents and how they are built.
use vstd::prelude::*;
use crate::model::LLMProvider;
use crate::plan::{Temperature, WorkerAgent, WorkerAgentView};

verus! {

/// An agent: the number stands for the agent object that the host holds. What the agent is
/// called is up to the agent, at any time; who needs its name asks the host for it.
#[derive(Clone, Copy, Debug, PartialEq, Eq, Structural)]
pub struct AgentHandle {
    pub id: u64,
}

/// The builders of agents: one for each provider of models.
#[derive(Clone, Copy, Debug, PartialEq, Eq, Structural)]
pub enum AgentBuilder {
    Anthropic,
    DeepSeek,
    Gemini,
    OpenAI,
    OpenRouter,
}

/// The builder of agents that talk to `provider`.
pub open spec fn builder_for(provider: LLMProvider) -> AgentBuilder {
    match provider {
        LLMProvider::Anthropic(_) => AgentBuilder::Anthropic,
        LLMProvider::DeepSeek(_) => AgentBuilder::DeepSeek,
        LLMProvider::Gemini(_) => AgentBuilder::Gemini,
        LLMProvider::OpenAI(_) => AgentBuilder::OpenAI,
        LLMProvider::OpenRouter(_) => AgentBuilder::OpenRouter,
    }
}

/// Everything that an agent is built from.
#[derive(Debug)]
pub struct AgentConfig {
    /// The builder to use
    pub builder: AgentBuilder,
    /// The provider of the model
    pub provider: LLMProvider,
    /// Name of the agent
    pub agent_name: String,
    /// Description of the agent
    pub description: String,
    /// System prompt of the agent
    pub system_prompt: String,
    /// Temperature setting of the agent
    pub temperature: Temperature,
    /// Maximum tokens of the agent
    pub max_tokens: u64,
}

/// What an [`AgentConfig`] holds.
pub struct AgentConfigView {
    pub builder: AgentBuilder,
    pub provider: LLMProvider,
    pub agent_name: Seq<char>,
    pub description: Seq<char>,
    pub system_prompt: Seq<char>,
    pub temperature: Temperature,
    pub max_tokens: nat,
}

impl View for AgentConfig {
    type V = AgentConfigView;

    open spec fn view(&self) -> AgentConfigView {
        AgentConfigView {
            builder: self.builder,
            provider: self.provider,
            agent_name: self.agent_name@,
            description: self.description@,
            system_prompt: self.system_prompt@,
            temperature: self.temperature,
            max_tokens: self.max_tokens as nat,
        }
    }
}

/// What the agent for `worker` is built from when `provider` serves its model.
pub open spec fn worker_config(worker: WorkerAgentView, provider: LLMProvider) -> AgentConfigView {
    AgentConfigView {
        builder: builder_for(provider),
        provider,
        agent_name: worker.name,
        description: worker.description,
        system_prompt: worker.system_prompt,
        temperature: worker.temperature,
        max_tokens: worker.max_tokens,
    }
}

impl AgentConfig {
    /// What the agent for `worker` is built from when `provider` serves its model.
    pub fn for_worker(worker: &WorkerAgent, provider: LLMProvider) -> (config: Self)
        ensures
            config@ == worker_config(worker@, provider),
            config.provider == provider,
            config.agent_name@ == worker.name@,
            config.description@ == worker.description@,
            config.system_prompt@ == worker.system_prompt@,
            config.temperature == worker.temperature,
            config.max_tokens == worker.max_tokens,
            config.builder is Anthropic <==> provider is Anthropic,
            config.builder is DeepSeek <==> provider is DeepSeek,
            config.builder is Gemini <==> provider is Gemini,
            config.builder is OpenAI <==> provider is OpenAI,
            config.builder is OpenRouter <==> provider is OpenRouter,
    {
        let builder = match provider {
            LLMProvider::Anthropic(_) => AgentBuilder::Anthropic,
            LLMProvider::DeepSeek(_) => AgentBuilder::DeepSeek,
            LLMProvider::Gemini(_) => AgentBuilder::Gemini,
            LLMProvider::OpenAI(_) => AgentBuilder::OpenAI,
            LLMProvider::OpenRouter(_) => AgentBuilder::OpenRouter,
        };
        AgentConfig {
            builder,
            provider,
            agent_name: worker.name.clone(),
            description: worker.description.clone(),
            system_prompt: worker.system_prompt.clone(),
            temperature: worker.temperature,
            max_tokens: worker.max_tokens as u64,
        }
    }
}

} // verus!
