//! The team workflow: its registry of models and its leader.
use vstd::prelude::*;
use dashmap::DashMap;
use crate::agent::{AgentConfig, AgentHandle};
use crate::error::{TeamWorkflowError, TeamWorkflowErrorView};
use crate::execution::{Action, Execution};
use crate::maps::{find_model, insert_model, list_models, new_registry};
use crate::model::{LLMProvider, ModelDescription, ModelDescriptionView};
use crate::plan::{AgentConnection, OrchestrationPlan};
use crate::prompt::{to_leader_prompt, OrchestrateTool};

verus! {

/// TeamWorkflow orchestrates a team of agents led by a leader agent.
/// The leader agent analyzes tasks and creates worker agents with appropriate models and prompts.
pub struct TeamWorkflow {
    /// Name of the workflow
    pub name: String,
    /// Description of the workflow
    pub description: String,
    /// Registry of available models
    model_registry: DashMap<String, (LLMProvider, ModelDescription)>,
    /// Leader agent that orchestrates the workflow
    leader_agent: Option<AgentHandle>,
}

/// What the engine of a workflow is made with.
#[derive(Debug)]
pub struct EngineSetup {
    /// Name of the workflow
    pub name: String,
    /// Description of the workflow
    pub description: String,
}

/// The texts one after another, each behind a line break.
pub open spec fn lines(texts: Seq<Seq<char>>) -> Seq<char>
    decreases texts.len(),
{
    if texts.len() == 0 {
        Seq::empty()
    } else {
        lines(texts.drop_last()) + "\n"@ + texts.last()
    }
}

/// The texts of the descriptions of `models`, in the order `names`.
pub open spec fn description_texts(models: crate::maps::Models, names: Seq<Seq<char>>) -> Seq<
    Seq<char>,
> {
    names.map_values(|name: Seq<char>| crate::model::description_text(models[name].1))
}

/// The texts of the descriptions of a listing.
pub open spec fn listed_texts(listing: Seq<(String, ModelDescription)>) -> Seq<Seq<char>> {
    listing.map_values(
        |entry: (String, ModelDescription)| crate::model::description_text(entry.1@),
    )
}

/// `names` names each of `models` once.
pub open spec fn enumerates(names: Seq<Seq<char>>, models: crate::maps::Models) -> bool {
    names.no_duplicates() && names.to_set() == models.dom()
}

/// What a registry of `models` tells of `name`.
pub open spec fn lookup(models: crate::maps::Models, name: Seq<char>) -> Result<
    (LLMProvider, ModelDescriptionView),
    TeamWorkflowErrorView,
> {
    if models.contains_key(name) {
        Ok(models[name])
    } else {
        Err(TeamWorkflowErrorView::ModelNotFound(name))
    }
}

/// Writes the descriptions of a listing, each behind a line break.
pub fn available_models(listing: &Vec<(String, ModelDescription)>) -> (s: String)
    ensures
        s@ == lines(listed_texts(listing@)),
{
    let mut s = String::new();
    let mut i: usize = 0;
    while i < listing.len()
        invariant
            i <= listing.len(),
            s@ == lines(listed_texts(listing@).take(i as int)),
        decreases listing.len() - i,
    {
        let ghost after = listed_texts(listing@).take(i + 1);
        assert(after.drop_last() =~= listed_texts(listing@).take(i as int));
        s.append("\n");
        s.append(listing[i].1.to_string().as_str());
        assert(s@ == lines(after));
        i += 1;
    }
    assert(listed_texts(listing@).take(listing.len() as int) =~= listed_texts(listing@));
    s
}

impl TeamWorkflow {
    /// The name of the workflow.
    pub closed spec fn name_text(&self) -> Seq<char> {
        self.name@
    }

    /// The description of the workflow.
    pub closed spec fn summary_text(&self) -> Seq<char> {
        self.description@
    }

    /// The registered models, by the name under which each is registered.
    pub closed spec fn models(&self) -> crate::maps::Models {
        crate::maps::registered_models(self.model_registry)
    }

    /// The leader, where one is set.
    pub closed spec fn leader(&self) -> Option<AgentHandle> {
        self.leader_agent
    }

    /// Create a new TeamWorkflow. The engine of its workflow is to be made with the setup, which
    /// has the name and the description of the team.
    pub fn new(name: String, description: String) -> (r: (Self, EngineSetup))
        ensures
            r.0.name_text() == name@,
            r.0.summary_text() == description@,
            r.0.models() == crate::maps::Models::empty(),
            r.0.leader() is None,
            r.1.name@ == name@,
            r.1.description@ == description@,
    {
        let setup = EngineSetup { name: name.clone(), description: description.clone() };
        let team = TeamWorkflow {
            name,
            description,
            model_registry: new_registry(),
            leader_agent: None,
        };
        (team, setup)
    }

    /// Default leader agent system prompt and tool. The models come in an order that is left
    /// open.
    pub fn default_leader_system_prompt_and_tool(&self) -> (r: (String, OrchestrateTool))
        ensures
            exists|names: Seq<Seq<char>>| #[trigger]
                enumerates(names, self.models()) && r.0@ == crate::prompt::leader_prompt(
                    lines(description_texts(self.models(), names)),
                ),
            crate::prompt::LEADER_PROMPT_HEAD@.is_prefix_of(r.0@),
            crate::prompt::LEADER_PROMPT_TAIL@.is_suffix_of(r.0@),
            r.1.is_orchestrate(),
            r.1.name@ == crate::prompt::ORCHESTRATE_NAME@,
            r.1.description@ == crate::prompt::ORCHESTRATE_DESCRIPTION@,
    {
        let listing = list_models(&self.model_registry);
        let prompt = to_leader_prompt(available_models(&listing).as_str());
        proof {
            let names = crate::maps::listed_names(listing@);
            assert(enumerates(names, self.models()));
            assert(listed_texts(listing@) =~= description_texts(self.models(), names));
        }
        (prompt, OrchestrateTool::new())
    }

    /// Register a model with the model registry.
    pub fn register_model(
        &mut self,
        name: String,
        provider: LLMProvider,
        description: ModelDescription,
    )
        ensures
            final(self).models() == old(self).models().insert(name@, (provider, description@)),
            final(self).leader() == old(self).leader(),
            final(self).name_text() == old(self).name_text(),
            final(self).summary_text() == old(self).summary_text(),
    {
        insert_model(&mut self.model_registry, name, provider, description);
    }

    /// Get a model from the registry.
    pub fn get_model(&self, name: &str) -> (r: Result<
        (LLMProvider, ModelDescription),
        TeamWorkflowError,
    >)
        ensures
            match r {
                Ok(model) => lookup(self.models(), name@) == Ok::<
                    (LLMProvider, ModelDescriptionView),
                    TeamWorkflowErrorView,
                >((model.0, model.1@)),
                Err(e) => lookup(self.models(), name@) == Err::<
                    (LLMProvider, ModelDescriptionView),
                    TeamWorkflowErrorView,
                >(e@),
            },
            r is Ok <==> self.models().contains_key(name@),
            r matches Ok(model) ==> (model.0, model.1@) == self.models()[name@],
            r matches Err(e) ==> e matches TeamWorkflowError::ModelNotFound(missing) && missing@
                == name@,
    {
        match find_model(&self.model_registry, name) {
            Some(model) => Ok(model),
            None => Err(TeamWorkflowError::ModelNotFound(name.to_owned())),
        }
    }

    /// Set the leader agent. The action registers the agent with the workflow.
    pub fn set_leader(&mut self, agent: AgentHandle) -> (action: Action)
        ensures
            final(self).leader() == Some(agent),
            final(self).models() == old(self).models(),
            final(self).name_text() == old(self).name_text(),
            final(self).summary_text() == old(self).summary_text(),
            action@ == (crate::execution::ActionView::RegisterAgent { agent }),
    {
        self.leader_agent = Some(agent);
        Action::RegisterAgent { agent }
    }

    /// Execute the workflow with a leader-orchestrated approach: the first action of the
    /// execution, which asks the leader for its name.
    pub fn execute(&self, task: String) -> (r: Result<(Execution, Action), TeamWorkflowError>)
        ensures
            match r {
                Ok((execution, action)) => {
                    &&& self.leader() is Some
                    &&& execution@ == (crate::execution::ExecutionView::Naming { task: task@ })
                    &&& execution@.well_formed()
                    &&& execution@.waits_for(action@)
                    &&& action@ == (crate::execution::ActionView::NameAgent {
                        agent: self.leader()->0,
                    })
                },
                Err(e) => {
                    &&& self.leader() is None
                    &&& e@ == TeamWorkflowErrorView::LeaderAgentNotSet
                },
            },
    {
        match self.leader_agent {
            Some(leader) => Ok((Execution::Naming { task }, Action::NameAgent { agent: leader })),
            None => Err(TeamWorkflowError::LeaderAgentNotSet),
        }
    }

    /// Create worker agents based on the orchestration plan: what the next agent is built
    /// from once those of the first `created` workers exist, or nothing where that was all.
    pub fn create_worker_agents(&self, plan: &OrchestrationPlan, created: usize) -> (r: Result<
        Option<AgentConfig>,
        TeamWorkflowError,
    >)
        ensures
            created >= plan@.workers.len() ==> r == Ok::<Option<AgentConfig>, TeamWorkflowError>(
                None,
            ),
            created < plan@.workers.len() ==> {
                let worker = plan@.workers[created as int];
                match lookup(self.models(), worker.model) {
                    Ok((provider, _)) => {
                        &&& r is Ok
                        &&& r->Ok_0 is Some
                        &&& r->Ok_0->0@ == crate::agent::worker_config(worker, provider)
                    },
                    Err(e) => {
                        &&& r is Err
                        &&& r->Err_0@ == e
                    },
                }
            },
            r is Err <==> created < plan.workers@.len() && !self.models().contains_key(
                plan.workers@[created as int].model@,
            ),
            r matches Err(e) ==> e matches TeamWorkflowError::ModelNotFound(missing) && missing@
                == plan.workers@[created as int].model@,
            r matches Ok(config) ==> (config is None <==> created >= plan.workers@.len()),
            r matches Ok(Some(config)) ==> {
                let worker = plan.workers@[created as int];
                &&& config.provider == self.models()[worker.model@].0
                &&& config.agent_name@ == worker.name@
                &&& config.description@ == worker.description@
                &&& config.system_prompt@ == worker.system_prompt@
                &&& config.temperature == worker.temperature
                &&& config.max_tokens == worker.max_tokens
            },
    {
        if created < plan.workers.len() {
            let worker = &plan.workers[created];
            match self.get_model(worker.model.as_str()) {
                Ok((provider, _)) => Ok(Some(AgentConfig::for_worker(worker, provider))),
                Err(e) => Err(e),
            }
        } else {
            Ok(None)
        }
    }

    /// Create workflow connections based on the orchestration plan: the next connection once
    /// the first `created` exist, or nothing where that was all. Each is made with the default
    /// flow.
    pub fn create_workflow_connections(plan: &OrchestrationPlan, created: usize) -> (r: Option<
        AgentConnection,
    >)
        ensures
            match r {
                Some(connection) => created < plan@.connections.len() && connection@
                    == plan@.connections[created as int],
                None => created >= plan@.connections.len(),
            },
            r is Some <==> created < plan.connections@.len(),
            r matches Some(connection) ==> {
                &&& connection.from@ == plan.connections@[created as int].from@
                &&& connection.to@ == plan.connections@[created as int].to@
            },
    {
        if created < plan.connections.len() {
            let connection = &plan.connections[created];
            Some(AgentConnection { from: connection.from.clone(), to: connection.to.clone() })
        } else {
            None
        }
    }
}

} // verus!
