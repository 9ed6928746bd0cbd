//! The concurrent maps of a team: its registry of models, the outcomes of its agents and the
//! answers that it gives.
//!
//! A `DashMap` can change behind a shared reference. Here each map is written through a
//! mutable reference only, and each is owned where it is read, so that what it holds stays
//! the same between two writes. A call waits for the locks that references into the map hold;
//! an owned map has none, unless a guard of it was leaked before the map was handed in.
use vstd::prelude::*;
use dashmap::DashMap;
use crate::error::GraphWorkflowError;
use crate::model::{LLMProvider, ModelDescription, ModelDescriptionView};

verus! {

/// The type `dashmap::DashMap`.
#[verifier::external_type_specification]
#[verifier::external_body]
#[verifier::reject_recursive_types(K)]
#[verifier::reject_recursive_types(V)]
#[verifier::reject_recursive_types(S)]
pub struct ExDashMap<K, V, S>(DashMap<K, V, S>);

/// Models and their providers, by the name under which each is registered.
pub type Models = Map<Seq<char>, (LLMProvider, ModelDescriptionView)>;

/// What became of the agents of a workflow: what each said, or the message of its failure.
pub type Outcomes = Map<Seq<char>, Result<Seq<char>, Seq<char>>>;

/// The answers of a team, by the name of the agent that gives each.
pub type Answers = Map<Seq<char>, Seq<char>>;

/// The models that a registry holds, by the name under which each is registered.
pub uninterp spec fn registered_models(
    registry: DashMap<String, (LLMProvider, ModelDescription)>,
) -> Models;

/// The outcomes that a map of outcomes holds, by the name of the agent.
pub uninterp spec fn held_outcomes(
    outcomes: DashMap<String, Result<String, GraphWorkflowError>>,
) -> Outcomes;

/// The answers that a map of answers holds, by the name of the agent.
pub uninterp spec fn held_answers(answers: DashMap<String, String>) -> Answers;

/// What an outcome holds.
pub open spec fn outcome_view(outcome: Result<String, GraphWorkflowError>) -> Result<
    Seq<char>,
    Seq<char>,
> {
    match outcome {
        Ok(output) => Ok(output@),
        Err(e) => Err(e.message@),
    }
}

/// The names under which the models of a listing are registered, in the order of the listing.
pub open spec fn listed_names(listing: Seq<(String, ModelDescription)>) -> Seq<Seq<char>> {
    listing.map_values(|entry: (String, ModelDescription)| entry.0@)
}

/// `dashmap::DashMap::new`, for a registry of models.
///
/// Trusted: the new map holds nothing.
#[verifier::external_body]
pub(crate) fn new_registry() -> (registry: DashMap<String, (LLMProvider, ModelDescription)>)
    ensures
        registered_models(registry) == Models::empty(),
{
    DashMap::new()
}

/// `dashmap::DashMap::insert`, for a registry of models.
///
/// Trusted: the name is bound to the model, whatever it was bound to before, and no other
/// name changes. The model that the name was bound to before is dropped.
#[verifier::external_body]
pub(crate) fn insert_model(
    registry: &mut DashMap<String, (LLMProvider, ModelDescription)>,
    name: String,
    provider: LLMProvider,
    description: ModelDescription,
)
    ensures
        registered_models(*final(registry)) == registered_models(*old(registry)).insert(
            name@,
            (provider, description@),
        ),
{
    registry.insert(name, (provider, description));
}

/// `dashmap::DashMap::get`, for a registry of models.
///
/// Trusted: what the name is bound to is found, and nothing where it is bound to nothing.
/// The model is handed out as a clone, through the `clone` of [`ModelDescription`].
#[verifier::external_body]
pub(crate) fn find_model(
    registry: &DashMap<String, (LLMProvider, ModelDescription)>,
    name: &str,
) -> (found: Option<(LLMProvider, ModelDescription)>)
    ensures
        match found {
            Some(model) => registered_models(*registry).contains_key(name@) && (model.0, model.1@)
                == registered_models(*registry)[name@],
            None => !registered_models(*registry).contains_key(name@),
        },
{
    registry.get(name).map(|entry| entry.value().clone())
}

/// `dashmap::DashMap::iter`, for a registry of models.
///
/// Trusted: each model comes once, with the name that it is registered under, in an order
/// that is left open.
#[verifier::external_body]
pub(crate) fn list_models(registry: &DashMap<String, (LLMProvider, ModelDescription)>) -> (listing:
    Vec<(String, ModelDescription)>)
    ensures
        listed_names(listing@).no_duplicates(),
        listed_names(listing@).to_set() == registered_models(*registry).dom(),
        forall|i: int|
            0 <= i < listing@.len() ==> (#[trigger] listing@[i]).1@ == registered_models(
                *registry,
            )[listing@[i].0@].1,
{
    registry.iter().map(|entry| (entry.key().clone(), entry.value().1.clone())).collect()
}

/// `dashmap::DashMap::get`, for a map of outcomes.
///
/// Trusted: the outcome of the agent is found, and nothing where the map holds none of it.
/// The outcome is handed out as a clone.
#[verifier::external_body]
pub(crate) fn find_outcome(
    outcomes: &DashMap<String, Result<String, GraphWorkflowError>>,
    agent: &str,
) -> (found: Option<Result<String, GraphWorkflowError>>)
    ensures
        match found {
            Some(outcome) => held_outcomes(*outcomes).contains_key(agent@) && outcome_view(outcome)
                == held_outcomes(*outcomes)[agent@],
            None => !held_outcomes(*outcomes).contains_key(agent@),
        },
{
    outcomes.get(agent).map(|entry| entry.value().clone())
}

/// `dashmap::DashMap::new`, for a map of answers.
///
/// Trusted: the new map holds nothing.
#[verifier::external_body]
pub(crate) fn new_answers() -> (answers: DashMap<String, String>)
    ensures
        held_answers(answers) == Answers::empty(),
{
    DashMap::new()
}

/// `dashmap::DashMap::insert`, for a map of answers.
///
/// Trusted: the agent is bound to the answer, whatever it was bound to before, and no other
/// agent changes. The answer that the agent was bound to before is dropped.
#[verifier::external_body]
pub(crate) fn insert_answer(answers: &mut DashMap<String, String>, agent: String, answer: String)
    ensures
        held_answers(*final(answers)) == held_answers(*old(answers)).insert(agent@, answer@),
{
    answers.insert(agent, answer);
}

} // verus!
