//! What holds of a team workflow as a whole.
use vstd::prelude::*;
use crate::agent::{AgentBuilder, AgentConfigView, AgentHandle};
use crate::error::TeamWorkflowErrorView;
use crate::execution::{ActionView, EventView, ExecutionView};
use crate::maps::{Models, Outcomes};
use crate::model::{LLMProvider, ModelDescriptionView};
use crate::plan::{OrchestrationPlanView, WorkerAgentView};

verus! {

/// A model is found under the name that it was registered under last, and registering it
/// changes what is found under no other name.
pub proof fn law_registered_model_is_found(
    models: Models,
    name: Seq<char>,
    model: (LLMProvider, ModelDescriptionView),
    other: Seq<char>,
)
    ensures
        crate::team::lookup(models.insert(name, model), name) == Ok::<_, TeamWorkflowErrorView>(
            model,
        ),
        other != name ==> crate::team::lookup(models.insert(name, model), other)
            == crate::team::lookup(models, other),
{
}

/// Of two models registered under one name, the later one stays.
pub proof fn law_last_registration_wins(
    models: Models,
    name: Seq<char>,
    first: (LLMProvider, ModelDescriptionView),
    second: (LLMProvider, ModelDescriptionView),
)
    ensures
        models.insert(name, first).insert(name, second) == models.insert(name, second),
{
    assert(models.insert(name, first).insert(name, second) =~= models.insert(name, second));
}

/// Models registered under two names can be registered in either order.
pub proof fn law_registrations_commute(
    models: Models,
    name: Seq<char>,
    model: (LLMProvider, ModelDescriptionView),
    other: Seq<char>,
    other_model: (LLMProvider, ModelDescriptionView),
)
    requires
        name != other,
    ensures
        models.insert(name, model).insert(other, other_model) == models.insert(
            other,
            other_model,
        ).insert(name, model),
{
    assert(models.insert(name, model).insert(other, other_model) =~= models.insert(
        other,
        other_model,
    ).insert(name, model));
}

/// A new registry knows no model.
pub proof fn law_new_registry_knows_no_model(name: Seq<char>)
    ensures
        crate::team::lookup(Models::empty(), name) == Err::<
            (LLMProvider, ModelDescriptionView),
            _,
        >(TeamWorkflowErrorView::ModelNotFound(name)),
{
}

/// The text of a description has four line breaks of its own, besides those of the name, of the
/// description and of the list of capabilities. It ends with the maximum of tokens in decimal, and
/// with no line break behind it.
pub proof fn law_description_lines(d: ModelDescriptionView, capabilities: Seq<char>)
    ensures
        crate::text::line_breaks(crate::model::described(d, capabilities)) == 4
            + crate::text::line_breaks(d.name) + crate::text::line_breaks(d.description)
            + crate::text::line_breaks(capabilities),
        ("Max Tokens: "@ + crate::text::decimal(d.max_tokens)).is_suffix_of(
            crate::model::described(d, capabilities),
        ),
        crate::model::described(d, capabilities).last() != '\n',
{
    reveal_strlit("Model: ");
    reveal_strlit("\nDescription: ");
    reveal_strlit("\nCapabilities: ");
    reveal_strlit("\nContext Window: ");
    reveal_strlit("\nMax Tokens: ");
    reveal_strlit("Max Tokens: ");
    let window = crate::text::decimal(d.context_window);
    let tokens = crate::text::decimal(d.max_tokens);
    crate::text::lemma_decimal_is_one_line(d.context_window);
    crate::text::lemma_decimal_is_one_line(d.max_tokens);
    crate::text::lemma_no_line_break(window);
    crate::text::lemma_no_line_break(tokens);
    crate::text::lemma_no_line_break("Model: "@);
    crate::text::lemma_leading_line_break("\nDescription: "@);
    crate::text::lemma_leading_line_break("\nCapabilities: "@);
    crate::text::lemma_leading_line_break("\nContext Window: "@);
    crate::text::lemma_leading_line_break("\nMax Tokens: "@);
    let s1 = "Model: "@ + d.name;
    let s2 = s1 + "\nDescription: "@;
    let s3 = s2 + d.description;
    let s4 = s3 + "\nCapabilities: "@;
    let s5 = s4 + capabilities;
    let s6 = s5 + "\nContext Window: "@;
    let s7 = s6 + window;
    let s8 = s7 + "\nMax Tokens: "@;
    crate::text::lemma_line_breaks_add("Model: "@, d.name);
    crate::text::lemma_line_breaks_add(s1, "\nDescription: "@);
    crate::text::lemma_line_breaks_add(s2, d.description);
    crate::text::lemma_line_breaks_add(s3, "\nCapabilities: "@);
    crate::text::lemma_line_breaks_add(s4, capabilities);
    crate::text::lemma_line_breaks_add(s5, "\nContext Window: "@);
    crate::text::lemma_line_breaks_add(s6, window);
    crate::text::lemma_line_breaks_add(s7, "\nMax Tokens: "@);
    crate::text::lemma_line_breaks_add(s8, tokens);
    let whole = crate::model::described(d, capabilities);
    let tail = "Max Tokens: "@ + tokens;
    assert(whole == s8 + tokens);
    assert(tail =~= whole.subrange(whole.len() - tail.len(), whole.len() as int));
    assert(tokens.contains(tokens.last()));
}

/// `part` stands somewhere in `whole`.
pub open spec fn occurs(part: Seq<char>, whole: Seq<char>) -> bool {
    exists|start: int| #[trigger] occurs_at(part, whole, start)
}

/// `part` stands in `whole`, from position `start` on.
pub open spec fn occurs_at(part: Seq<char>, whole: Seq<char>, start: int) -> bool {
    &&& 0 <= start
    &&& start + part.len() <= whole.len()
    &&& whole.subrange(start, start + part.len()) == part
}

/// What stands in a text also stands in that text with more before and after it.
proof fn lemma_occurs_between(
    part: Seq<char>,
    before: Seq<char>,
    whole: Seq<char>,
    after: Seq<char>,
)
    requires
        occurs(part, whole),
    ensures
        occurs(part, before + whole + after),
{
    let start = choose|start: int| #[trigger] occurs_at(part, whole, start);
    let wide = before + whole + after;
    let at = before.len() + start;
    assert(wide.subrange(at, at + part.len()) =~= whole.subrange(start, start + part.len()));
    assert(occurs_at(part, wide, at));
}

/// Each of several lines stands in the lines.
proof fn lemma_occurs_in_lines(texts: Seq<Seq<char>>, i: int)
    requires
        0 <= i < texts.len(),
    ensures
        occurs(texts[i], crate::team::lines(texts)),
    decreases texts.len(),
{
    let rest = crate::team::lines(texts.drop_last());
    if i == texts.len() - 1 {
        assert(occurs_at(texts[i], texts[i], 0)) by {
            assert(texts[i].subrange(0, texts[i].len() as int) =~= texts[i]);
        }
        lemma_occurs_between(texts[i], rest + "\n"@, texts[i], Seq::empty());
        assert(rest + "\n"@ + texts[i] + Seq::empty() =~= crate::team::lines(texts));
    } else {
        lemma_occurs_in_lines(texts.drop_last(), i);
        lemma_occurs_between(texts[i], Seq::empty(), rest, "\n"@ + texts.last());
        assert(Seq::empty() + rest + ("\n"@ + texts.last()) =~= crate::team::lines(texts));
    }
}

/// What stands in a text can be cut out of it.
proof fn lemma_occurrence_can_be_cut_out(part: Seq<char>, whole: Seq<char>)
    requires
        occurs(part, whole),
    ensures
        exists|start: int|
            0 <= start <= whole.len() - part.len() && #[trigger] whole.subrange(
                start,
                start + part.len(),
            ) == part,
{
    let start = choose|start: int| #[trigger] occurs_at(part, whole, start);
    assert(whole.subrange(start, start + part.len()) == part);
}

/// Whatever the order in which the models come, the prompt of the leader describes each
/// registered model.
pub proof fn law_prompt_describes_each_model(
    models: Models,
    names: Seq<Seq<char>>,
    name: Seq<char>,
)
    requires
        crate::team::enumerates(names, models),
        models.contains_key(name),
    ensures
        occurs(
            crate::model::description_text(models[name].1),
            crate::prompt::leader_prompt(
                crate::team::lines(crate::team::description_texts(models, names)),
            ),
        ),
        ({
            let part = crate::model::description_text(models[name].1);
            let whole = crate::prompt::leader_prompt(
                crate::team::lines(crate::team::description_texts(models, names)),
            );
            exists|start: int|
                0 <= start <= whole.len() - part.len() && #[trigger] whole.subrange(
                    start,
                    start + part.len(),
                ) == part
        }),
{
    let texts = crate::team::description_texts(models, names);
    assert(names.to_set().contains(name));
    let i = names.index_of(name);
    lemma_occurs_in_lines(texts, i);
    lemma_occurs_between(
        texts[i],
        crate::prompt::LEADER_PROMPT_HEAD@,
        crate::team::lines(texts),
        crate::prompt::LEADER_PROMPT_TAIL@,
    );
    lemma_occurrence_can_be_cut_out(
        crate::model::description_text(models[name].1),
        crate::prompt::leader_prompt(crate::team::lines(texts)),
    );
}

/// The prompt of a leader without models lists nothing.
pub proof fn law_prompt_without_models(names: Seq<Seq<char>>)
    requires
        crate::team::enumerates(names, Models::empty()),
    ensures
        crate::prompt::leader_prompt(
            crate::team::lines(crate::team::description_texts(Models::empty(), names)),
        ) == crate::prompt::leader_prompt(Seq::empty()),
{
    if names.len() > 0 {
        assert(names.to_set().contains(names[0]));
    }
}

/// The answers of a team do not depend on the order in which its output agents are named, nor
/// on how often one is named.
pub proof fn law_answers_do_not_depend_on_order(
    output_agents: Seq<Seq<char>>,
    others: Seq<Seq<char>>,
    outcomes: Outcomes,
)
    requires
        output_agents.to_set() == others.to_set(),
    ensures
        crate::answer::combined_answers(output_agents, outcomes)
            == crate::answer::combined_answers(others, outcomes),
{
    assert forall|agent: Seq<char>| output_agents.contains(agent) <==> others.contains(agent) by {
        assert(output_agents.to_set().contains(agent) <==> output_agents.contains(agent));
        assert(others.to_set().contains(agent) <==> others.contains(agent));
    }
    assert(crate::answer::combined_answers(output_agents, outcomes)
        =~= crate::answer::combined_answers(others, outcomes));
}

/// An output agent that ended well answers what it said; one that failed answers a line that
/// names it and its failure; one that did not run answers nothing, and neither does an agent
/// that is no output agent.
pub proof fn law_who_answers_what(
    output_agents: Seq<Seq<char>>,
    outcomes: Outcomes,
    agent: Seq<char>,
)
    ensures
        crate::answer::combined_answers(output_agents, outcomes).contains_key(agent)
            <==> output_agents.contains(agent) && outcomes.contains_key(agent),
        output_agents.contains(agent) && outcomes.contains_key(agent) ==> {
            let answer = crate::answer::combined_answers(output_agents, outcomes)[agent];
            match outcomes[agent] {
                Ok(output) => answer == output,
                Err(message) => answer == "Agent: "@ + agent + ", Error: "@ + message,
            }
        },
{
}

/// An event that the last action led to is one that the execution waits for, so that the
/// execution goes on with it.
pub proof fn law_answer_is_expected(
    state: ExecutionView,
    action: ActionView,
    event: EventView,
)
    requires
        state.waits_for(action),
    ensures
        event.answers(action) <==> state.expects(event),
{
}

/// An execution is over when, and only when, its last action returns the result.
pub proof fn law_return_is_the_last_action(state: ExecutionView, action: ActionView)
    requires
        state.waits_for(action),
    ensures
        state is Finished <==> action is Return,
        state is Finished ==> forall|event: EventView| !#[trigger] state.expects(event),
{
}

/// The error that ends an execution when an action led to `event`, if it does.
pub open spec fn failure(event: EventView) -> Option<TeamWorkflowErrorView> {
    match event {
        EventView::AgentExecuted { output: Err(e) } => {
            Some(TeamWorkflowErrorView::GraphWorkflowError(e))
        },
        EventView::PlanParsed { plan: Err(e) } => Some(TeamWorkflowErrorView::JsonError(e)),
        EventView::AgentBuilt { agent: Err(e) } => Some(TeamWorkflowErrorView::AgentError(e)),
        EventView::AgentsConnected { connected: Err(e) } => {
            Some(TeamWorkflowErrorView::GraphWorkflowError(e))
        },
        EventView::WorkflowExecuted { outcomes: Err(e) } => {
            Some(TeamWorkflowErrorView::GraphWorkflowError(e))
        },
        _ => None,
    }
}

/// A failed action ends the execution with its own error, whatever the execution has come to.
pub proof fn law_failure_ends_the_execution(models: Models, state: ExecutionView, event: EventView)
    requires
        state.expects(event),
        failure(event) is Some,
    ensures
        crate::execution::step(models, state, event) == (
            ExecutionView::Finished,
            ActionView::Return { result: Err(failure(event)->0) },
        ),
        match event {
            EventView::AgentExecuted { output: Err(e) } => failure(event)->0
                == TeamWorkflowErrorView::GraphWorkflowError(e),
            EventView::PlanParsed { plan: Err(e) } => failure(event)->0
                == TeamWorkflowErrorView::JsonError(e),
            EventView::AgentBuilt { agent: Err(e) } => failure(event)->0
                == TeamWorkflowErrorView::AgentError(e),
            EventView::AgentsConnected { connected: Err(e) } => failure(event)->0
                == TeamWorkflowErrorView::GraphWorkflowError(e),
            EventView::WorkflowExecuted { outcomes: Err(e) } => failure(event)->0
                == TeamWorkflowErrorView::GraphWorkflowError(e),
            _ => false,
        },
{
}

/// The failure of each kind of action is returned at once, with the message that it came with:
/// nothing is skipped and nothing is tried again.
pub proof fn law_each_failure_is_returned(
    models: Models,
    task: Seq<char>,
    plan: OrchestrationPlanView,
    place: nat,
    output_agents: Seq<Seq<char>>,
    e: Seq<char>,
)
    ensures
        crate::execution::step(
            models,
            ExecutionView::Analyzing { task },
            EventView::AgentExecuted { output: Err(e) },
        ) == (
            ExecutionView::Finished,
            ActionView::Return { result: Err(TeamWorkflowErrorView::GraphWorkflowError(e)) },
        ),
        crate::execution::step(
            models,
            ExecutionView::Parsing { task },
            EventView::PlanParsed { plan: Err(e) },
        ) == (
            ExecutionView::Finished,
            ActionView::Return { result: Err(TeamWorkflowErrorView::JsonError(e)) },
        ),
        crate::execution::step(
            models,
            ExecutionView::Building { task, plan, worker: place },
            EventView::AgentBuilt { agent: Err(e) },
        ) == (
            ExecutionView::Finished,
            ActionView::Return { result: Err(TeamWorkflowErrorView::AgentError(e)) },
        ),
        crate::execution::step(
            models,
            ExecutionView::Connecting { task, plan, connection: place },
            EventView::AgentsConnected { connected: Err(e) },
        ) == (
            ExecutionView::Finished,
            ActionView::Return { result: Err(TeamWorkflowErrorView::GraphWorkflowError(e)) },
        ),
        crate::execution::step(
            models,
            ExecutionView::Running { output_agents },
            EventView::WorkflowExecuted { outcomes: Err(e) },
        ) == (
            ExecutionView::Finished,
            ActionView::Return { result: Err(TeamWorkflowErrorView::GraphWorkflowError(e)) },
        ),
{
}

/// Without a failed action, the only error that an execution ends with is that the next worker
/// names a model that is not registered.
pub proof fn law_only_a_missing_model_fails_unprovoked(
    models: Models,
    state: ExecutionView,
    event: EventView,
    e: TeamWorkflowErrorView,
)
    requires
        state.expects(event),
        failure(event) is None,
        crate::execution::step(models, state, event).1 == (ActionView::Return { result: Err(e) }),
    ensures
        match (state, event) {
            (ExecutionView::Parsing { .. }, EventView::PlanParsed { plan: Ok(plan) }) => {
                &&& plan.workers.len() > 0
                &&& !models.contains_key(plan.workers[0].model)
                &&& e == TeamWorkflowErrorView::ModelNotFound(plan.workers[0].model)
            },
            (ExecutionView::Registering { plan, worker, .. }, _) => {
                &&& worker + 1 < plan.workers.len()
                &&& !models.contains_key(plan.workers[(worker + 1) as int].model)
                &&& e == TeamWorkflowErrorView::ModelNotFound(
                    plan.workers[(worker + 1) as int].model,
                )
            },
            _ => false,
        },
{
}

/// An agent is built from its worker's own settings and with the provider that its model is
/// registered with, by the builder of that provider.
pub proof fn law_agent_has_its_own_settings(worker: WorkerAgentView, provider: LLMProvider)
    ensures
        ({
            let config = crate::agent::worker_config(worker, provider);
            &&& config.provider == provider
            &&& config.agent_name == worker.name
            &&& config.description == worker.description
            &&& config.system_prompt == worker.system_prompt
            &&& config.temperature == worker.temperature
            &&& config.max_tokens == worker.max_tokens
            &&& config.builder == crate::agent::builder_for(provider)
        }),
        provider is Anthropic <==> crate::agent::builder_for(provider) == AgentBuilder::Anthropic,
        provider is DeepSeek <==> crate::agent::builder_for(provider) == AgentBuilder::DeepSeek,
        provider is Gemini <==> crate::agent::builder_for(provider) == AgentBuilder::Gemini,
        provider is OpenAI <==> crate::agent::builder_for(provider) == AgentBuilder::OpenAI,
        provider is OpenRouter <==> crate::agent::builder_for(provider)
            == AgentBuilder::OpenRouter,
{
}

/// Workers that differ in a setting get agents that differ in it.
pub proof fn law_agents_differ_as_their_workers(
    one: WorkerAgentView,
    two: WorkerAgentView,
    provider: LLMProvider,
    other: LLMProvider,
)
    requires
        crate::agent::worker_config(one, provider) == crate::agent::worker_config(two, other),
    ensures
        provider == other,
        one.name == two.name,
        one.description == two.description,
        one.system_prompt == two.system_prompt,
        one.temperature == two.temperature,
        one.max_tokens == two.max_tokens,
{
}

/// The leader is run under the name that it has now, on the request to analyze followed by the
/// whole task; the task itself is kept as it is.
pub proof fn law_leader_is_given_the_whole_task(models: Models, task: Seq<char>, name: Seq<char>)
    ensures
        ({
            let (next, action) = crate::execution::step(
                models,
                ExecutionView::Naming { task },
                EventView::AgentNamed { name },
            );
            let input = action->ExecuteAgent_input;
            &&& next == (ExecutionView::Analyzing { task })
            &&& action is ExecuteAgent
            &&& action->name == name
            &&& crate::prompt::ANALYSIS_REQUEST@.is_prefix_of(input)
            &&& task.is_suffix_of(input)
            &&& input.len() == crate::prompt::ANALYSIS_REQUEST@.len() + task.len()
        }),
{
    crate::text_laws::law_analysis_task_holds_the_task(task);
}

/// The leader's analysis is parsed as it is, and the task is kept.
pub proof fn law_analysis_is_parsed_as_it_is(
    models: Models,
    task: Seq<char>,
    analysis: Seq<char>,
)
    ensures
        crate::execution::step(
            models,
            ExecutionView::Analyzing { task },
            EventView::AgentExecuted { output: Ok(analysis) },
        ) == (ExecutionView::Parsing { task }, ActionView::ParsePlan { analysis }),
{
}

/// The agent that was built is the one that is registered, for the same worker of the same plan.
pub proof fn law_built_agent_is_registered(
    models: Models,
    task: Seq<char>,
    plan: OrchestrationPlanView,
    worker: nat,
    agent: AgentHandle,
)
    ensures
        crate::execution::step(
            models,
            ExecutionView::Building { task, plan, worker },
            EventView::AgentBuilt { agent: Ok(agent) },
        ) == (
            ExecutionView::Registering { task, plan, worker },
            ActionView::RegisterAgent { agent },
        ),
{
}

/// A parsed plan leads to its first worker, and a registered agent to the worker after its own:
/// that worker's agent is built from its own settings where its model is registered, and the
/// execution ends with the missing model where it is not. Behind the last worker comes the first
/// connection, or the run of the workflow on the task where there is none.
pub proof fn law_worker_after_worker(
    models: Models,
    state: ExecutionView,
    event: EventView,
    task: Seq<char>,
    plan: OrchestrationPlanView,
    worker: nat,
)
    requires
        ({
            ||| worker == 0 && state == (ExecutionView::Parsing { task }) && event == (
            EventView::PlanParsed { plan: Ok(plan) })
            ||| worker > 0 && state == (ExecutionView::Registering {
                task,
                plan,
                worker: (worker - 1) as nat,
            }) && event == EventView::AgentRegistered
        }),
    ensures
        ({
            let (next, action) = crate::execution::step(models, state, event);
            let w = plan.workers[worker as int];
            if worker < plan.workers.len() && models.contains_key(w.model) {
                &&& next == (ExecutionView::Building { task, plan, worker })
                &&& action is BuildAgent
                &&& action->config.provider == models[w.model].0
                &&& action->config.builder == crate::agent::builder_for(models[w.model].0)
                &&& action->config.agent_name == w.name
                &&& action->config.description == w.description
                &&& action->config.system_prompt == w.system_prompt
                &&& action->config.temperature == w.temperature
                &&& action->config.max_tokens == w.max_tokens
            } else if worker < plan.workers.len() {
                &&& next == ExecutionView::Finished
                &&& action == (ActionView::Return {
                    result: Err(TeamWorkflowErrorView::ModelNotFound(w.model)),
                })
            } else if plan.connections.len() > 0 {
                &&& next == (ExecutionView::Connecting { task, plan, connection: 0 })
                &&& action == (ActionView::ConnectAgents {
                    from: plan.connections[0].from,
                    to: plan.connections[0].to,
                })
            } else {
                &&& next == (ExecutionView::Running { output_agents: plan.output_agents })
                &&& action == (ActionView::ExecuteWorkflow {
                    start_agents: plan.starting_agents,
                    input: task,
                })
            }
        }),
{
}

/// A connection that was made leads to the next one, from its source to its target, and the last
/// one to the run of the workflow on the task.
pub proof fn law_connection_after_connection(
    models: Models,
    task: Seq<char>,
    plan: OrchestrationPlanView,
    connection: nat,
)
    ensures
        ({
            let (next, action) = crate::execution::step(
                models,
                ExecutionView::Connecting { task, plan, connection },
                EventView::AgentsConnected { connected: Ok(()) },
            );
            let c = plan.connections[(connection + 1) as int];
            if connection + 1 < plan.connections.len() {
                &&& next == (ExecutionView::Connecting { task, plan, connection: connection + 1 })
                &&& action == (ActionView::ConnectAgents { from: c.from, to: c.to })
            } else {
                &&& next == (ExecutionView::Running { output_agents: plan.output_agents })
                &&& action == (ActionView::ExecuteWorkflow {
                    start_agents: plan.starting_agents,
                    input: task,
                })
            }
        }),
{
}

/// When the workflow has run, the answer of each output agent that has an outcome is returned, and
/// no other: what it said, or a line that names it and its failure.
pub proof fn law_answers_are_returned(
    models: Models,
    output_agents: Seq<Seq<char>>,
    outcomes: Outcomes,
    agent: Seq<char>,
)
    ensures
        ({
            let (next, action) = crate::execution::step(
                models,
                ExecutionView::Running { output_agents },
                EventView::WorkflowExecuted { outcomes: Ok(outcomes) },
            );
            let answers = action->result->Ok_0;
            &&& next == ExecutionView::Finished
            &&& action is Return
            &&& action->result is Ok
            &&& answers.contains_key(agent) <==> output_agents.contains(agent)
                && outcomes.contains_key(agent)
            &&& output_agents.contains(agent) && outcomes.contains_key(agent)
                ==> match outcomes[agent] {
                Ok(output) => answers[agent] == output,
                Err(message) => answers[agent] == "Agent: "@ + agent + ", Error: "@ + message,
            }
        }),
{
}

/// An execution waits for one kind of action and goes on with one kind of event; it is at a worker
/// or a connection of its plan.
pub proof fn law_what_an_execution_waits_for(
    state: ExecutionView,
    action: ActionView,
    event: EventView,
)
    ensures
        state.waits_for(action) <==> {
            ||| state is Naming && action is NameAgent
            ||| state is Analyzing && action is ExecuteAgent
            ||| state is Parsing && action is ParsePlan
            ||| state is Building && action is BuildAgent
            ||| state is Registering && action is RegisterAgent
            ||| state is Connecting && action is ConnectAgents
            ||| state is Running && action is ExecuteWorkflow
            ||| state is Finished && action is Return
        },
        state.expects(event) <==> {
            ||| state is Naming && event is AgentNamed
            ||| state is Analyzing && event is AgentExecuted
            ||| state is Parsing && event is PlanParsed
            ||| state is Building && event is AgentBuilt
            ||| state is Registering && event is AgentRegistered
            ||| state is Connecting && event is AgentsConnected
            ||| state is Running && event is WorkflowExecuted
        },
        state.well_formed() <==> match state {
            ExecutionView::Building { plan, worker, .. } => worker < plan.workers.len(),
            ExecutionView::Registering { plan, worker, .. } => worker < plan.workers.len(),
            ExecutionView::Connecting { plan, connection, .. } => connection
                < plan.connections.len(),
            _ => true,
        },
{
}

/// How many actions an execution whose plan is known still waits for, at most.
pub open spec fn actions_left(state: ExecutionView) -> int {
    match state {
        ExecutionView::Building { plan, worker, .. } => 2 * (plan.workers.len() - worker)
            + plan.connections.len() + 1,
        ExecutionView::Registering { plan, worker, .. } => 2 * (plan.workers.len() - worker) - 1
            + plan.connections.len() + 1,
        ExecutionView::Connecting { plan, connection, .. } => plan.connections.len() - connection
            + 1,
        ExecutionView::Running { .. } => 1,
        _ => 0,
    }
}

/// Each action brings the end of the execution nearer: once the plan is known, no more actions
/// are waited for than two for each worker, one for each connection and the run of the workflow.
pub proof fn law_execution_ends(models: Models, state: ExecutionView, event: EventView)
    requires
        state.well_formed(),
        state.expects(event),
    ensures
        crate::execution::step(models, state, event).0.well_formed(),
        state !is Naming && state !is Analyzing && state !is Parsing ==> 0 <= actions_left(
            crate::execution::step(models, state, event).0,
        ) < actions_left(state),
        match (state, event) {
            (ExecutionView::Parsing { .. }, EventView::PlanParsed { plan: Ok(plan) }) => {
                actions_left(crate::execution::step(models, state, event).0) <= 2
                    * plan.workers.len() + plan.connections.len() + 1
            },
            _ => true,
        },
{
}

/// What an execution comes to through `events`, and the actions on the way.
pub open spec fn run(models: Models, state: ExecutionView, events: Seq<EventView>) -> (
    ExecutionView,
    Seq<ActionView>,
)
    decreases events.len(),
{
    if events.len() == 0 {
        (state, Seq::empty())
    } else {
        let (before, actions) = run(models, state, events.drop_last());
        let (after, action) = crate::execution::step(models, before, events.last());
        (after, actions.push(action))
    }
}

/// The agents of the first `count` workers are built and registered, one after another:
/// `agents` are the agents.
pub open spec fn worker_actions(
    models: Models,
    plan: OrchestrationPlanView,
    agents: Seq<AgentHandle>,
    count: nat,
) -> Seq<ActionView>
    decreases count,
{
    if count == 0 {
        Seq::empty()
    } else {
        let worker = plan.workers[count - 1];
        worker_actions(models, plan, agents, (count - 1) as nat) + seq![
            ActionView::BuildAgent {
                config: AgentConfigView {
                    builder: crate::agent::builder_for(models[worker.model].0),
                    provider: models[worker.model].0,
                    agent_name: worker.name,
                    description: worker.description,
                    system_prompt: worker.system_prompt,
                    temperature: worker.temperature,
                    max_tokens: worker.max_tokens,
                },
            },
            ActionView::RegisterAgent { agent: agents[count - 1] },
        ]
    }
}

/// The first `count` agents are built and registered without a failure.
pub open spec fn worker_events(agents: Seq<AgentHandle>, count: nat) -> Seq<EventView>
    decreases count,
{
    if count == 0 {
        Seq::empty()
    } else {
        worker_events(agents, (count - 1) as nat) + seq![
            EventView::AgentBuilt { agent: Ok(agents[count - 1]) },
            EventView::AgentRegistered,
        ]
    }
}

/// The first `count` connections are made, one after another.
pub open spec fn connection_actions(plan: OrchestrationPlanView, count: nat) -> Seq<ActionView> {
    Seq::new(
        count,
        |i: int|
            ActionView::ConnectAgents {
                from: plan.connections[i].from,
                to: plan.connections[i].to,
            },
    )
}

/// `count` connections are made without a failure.
pub open spec fn connection_events(count: nat) -> Seq<EventView> {
    Seq::new(count, |i: int| EventView::AgentsConnected { connected: Ok(()) })
}

/// The leader is called `name`, and its analysis is a plan.
pub open spec fn planning_events(
    name: Seq<char>,
    analysis: Seq<char>,
    plan: OrchestrationPlanView,
) -> Seq<EventView> {
    seq![
        EventView::AgentNamed { name },
        EventView::AgentExecuted { output: Ok(analysis) },
        EventView::PlanParsed { plan: Ok(plan) },
    ]
}

/// The leader, under the name that it has now, analyzes the task, and its analysis is parsed.
pub open spec fn planning_actions(
    name: Seq<char>,
    task: Seq<char>,
    analysis: Seq<char>,
) -> Seq<ActionView> {
    seq![
        ActionView::ExecuteAgent { name, input: crate::prompt::ANALYSIS_REQUEST@ + task },
        ActionView::ParsePlan { analysis },
    ]
}

/// The models of the first `count` workers are registered.
pub open spec fn models_known(models: Models, plan: OrchestrationPlanView, count: nat) -> bool {
    forall|i: int| 0 <= i < count ==> models.contains_key((#[trigger] plan.workers[i]).model)
}

/// One more event adds one more step.
proof fn lemma_run_push(
    models: Models,
    state: ExecutionView,
    events: Seq<EventView>,
    event: EventView,
)
    ensures
        run(models, state, events.push(event)) == ({
            let (before, actions) = run(models, state, events);
            let (after, action) = crate::execution::step(models, before, event);
            (after, actions.push(action))
        }),
{
    assert(events.push(event).drop_last() =~= events);
}

/// While the models of the first `count` workers are registered and no action fails, the agents
/// of these workers are built and registered in the order of the plan, each from what the plan
/// says of it and by the provider that its model is registered with. What the execution comes
/// to then is settled by the next worker alone, or by the connections where there is none.
pub proof fn law_workers_are_created_in_order(
    models: Models,
    name: Seq<char>,
    task: Seq<char>,
    analysis: Seq<char>,
    plan: OrchestrationPlanView,
    agents: Seq<AgentHandle>,
    count: nat,
)
    requires
        count <= plan.workers.len(),
        count <= agents.len(),
        models_known(models, plan, count),
    ensures
        run(
            models,
            ExecutionView::Naming { task },
            planning_events(name, analysis, plan) + worker_events(agents, count),
        ) == (
            crate::execution::at_worker(models, task, plan, count).0,
            planning_actions(name, task, analysis) + worker_actions(models, plan, agents, count)
                + seq![crate::execution::at_worker(models, task, plan, count).1],
        ),
    decreases count,
{
    let start = ExecutionView::Naming { task };
    let planning = planning_events(name, analysis, plan);
    let opening = planning_actions(name, task, analysis);
    let events = planning + worker_events(agents, count);
    let actions = opening + worker_actions(models, plan, agents, count)
        + seq![crate::execution::at_worker(models, task, plan, count).1];
    if count == 0 {
        let none = Seq::<EventView>::empty();
        let named = EventView::AgentNamed { name };
        let analyzed = EventView::AgentExecuted { output: Ok(analysis) };
        let parsed = EventView::PlanParsed { plan: Ok(plan) };
        lemma_run_push(models, start, none, named);
        lemma_run_push(models, start, none.push(named), analyzed);
        lemma_run_push(models, start, none.push(named).push(analyzed), parsed);
        assert(events =~= none.push(named).push(analyzed).push(parsed));
        assert(run(models, start, events).1 =~= actions);
    } else {
        let previous = (count - 1) as nat;
        law_workers_are_created_in_order(models, name, task, analysis, plan, agents, previous);
        let before = planning + worker_events(agents, previous);
        let built = EventView::AgentBuilt { agent: Ok(agents[count - 1]) };
        assert(models.contains_key(plan.workers[count - 1].model));
        lemma_run_push(models, start, before, built);
        lemma_run_push(models, start, before.push(built), EventView::AgentRegistered);
        assert(events =~= before.push(built).push(EventView::AgentRegistered));
        assert(run(models, start, events).1 =~= actions);
    }
}

/// An unregistered model ends the execution: the agents of the workers before it are created,
/// and no other agent is; nothing is connected and the workflow does not run.
pub proof fn law_missing_model_ends_the_execution(
    models: Models,
    name: Seq<char>,
    task: Seq<char>,
    analysis: Seq<char>,
    plan: OrchestrationPlanView,
    agents: Seq<AgentHandle>,
    worker: nat,
)
    requires
        worker < plan.workers.len(),
        worker <= agents.len(),
        models_known(models, plan, worker),
        !models.contains_key(plan.workers[worker as int].model),
    ensures
        run(
            models,
            ExecutionView::Naming { task },
            planning_events(name, analysis, plan) + worker_events(agents, worker),
        ) == (
            ExecutionView::Finished,
            planning_actions(name, task, analysis) + worker_actions(models, plan, agents, worker)
                + seq![
                ActionView::Return {
                    result: Err(
                        TeamWorkflowErrorView::ModelNotFound(plan.workers[worker as int].model),
                    ),
                },
            ],
        ),
{
    law_workers_are_created_in_order(models, name, task, analysis, plan, agents, worker);
}

/// Once the agents of all workers are registered, and while no action fails, the connections are
/// made in the order of the plan. What the execution comes to after the first `count` of them is
/// settled by the next connection alone, or by the run of the workflow where there is none.
pub proof fn law_connections_are_made_in_order(
    models: Models,
    name: Seq<char>,
    task: Seq<char>,
    analysis: Seq<char>,
    plan: OrchestrationPlanView,
    agents: Seq<AgentHandle>,
    count: nat,
)
    requires
        plan.workers.len() <= agents.len(),
        models_known(models, plan, plan.workers.len()),
        count <= plan.connections.len(),
    ensures
        run(
            models,
            ExecutionView::Naming { task },
            planning_events(name, analysis, plan) + worker_events(agents, plan.workers.len())
                + connection_events(count),
        ) == (
            crate::execution::at_connection(task, plan, count).0,
            planning_actions(name, task, analysis) + worker_actions(
                models,
                plan,
                agents,
                plan.workers.len(),
            ) + connection_actions(plan, count) + seq![
                crate::execution::at_connection(task, plan, count).1,
            ],
        ),
    decreases count,
{
    let start = ExecutionView::Naming { task };
    let workers = planning_events(name, analysis, plan) + worker_events(agents, plan.workers.len());
    let created = planning_actions(name, task, analysis) + worker_actions(
        models,
        plan,
        agents,
        plan.workers.len(),
    );
    let events = workers + connection_events(count);
    let actions = created + connection_actions(plan, count) + seq![
        crate::execution::at_connection(task, plan, count).1,
    ];
    if count == 0 {
        law_workers_are_created_in_order(
            models,
            name,
            task,
            analysis,
            plan,
            agents,
            plan.workers.len(),
        );
        assert(events =~= workers);
        assert(run(models, start, events).1 =~= actions);
    } else {
        let previous = (count - 1) as nat;
        law_connections_are_made_in_order(models, name, task, analysis, plan, agents, previous);
        let before = workers + connection_events(previous);
        let connected = EventView::AgentsConnected { connected: Ok(()) };
        lemma_run_push(models, start, before, connected);
        assert(events =~= before.push(connected));
        assert(run(models, start, events).1 =~= actions);
    }
}

/// An execution without a failure: the leader, under the name that it has now, analyzes the task;
/// its analysis is parsed; the agents of all workers
/// are built and registered, in the order of the plan; all connections are made, in the order of
/// the plan; the workflow runs on the task itself, from the starting agents; and the result is
/// the answers of the output agents.
pub proof fn law_successful_execution(
    models: Models,
    name: Seq<char>,
    task: Seq<char>,
    analysis: Seq<char>,
    plan: OrchestrationPlanView,
    agents: Seq<AgentHandle>,
    outcomes: Outcomes,
)
    requires
        plan.workers.len() <= agents.len(),
        models_known(models, plan, plan.workers.len()),
    ensures
        run(
            models,
            ExecutionView::Naming { task },
            planning_events(name, analysis, plan) + worker_events(agents, plan.workers.len())
                + connection_events(plan.connections.len()) + seq![
                EventView::WorkflowExecuted { outcomes: Ok(outcomes) },
            ],
        ) == (
            ExecutionView::Finished,
            planning_actions(name, task, analysis) + worker_actions(
                models,
                plan,
                agents,
                plan.workers.len(),
            ) + connection_actions(plan, plan.connections.len()) + seq![
                ActionView::ExecuteWorkflow { start_agents: plan.starting_agents, input: task },
                ActionView::Return {
                    result: Ok(crate::answer::combined_answers(plan.output_agents, outcomes)),
                },
            ],
        ),
{
    let start = ExecutionView::Naming { task };
    let before = planning_events(name, analysis, plan) + worker_events(agents, plan.workers.len())
        + connection_events(plan.connections.len());
    let executed = EventView::WorkflowExecuted { outcomes: Ok(outcomes) };
    law_connections_are_made_in_order(
        models,
        name,
        task,
        analysis,
        plan,
        agents,
        plan.connections.len(),
    );
    lemma_run_push(models, start, before, executed);
    assert(before + seq![executed] =~= before.push(executed));
    assert(run(models, start, before.push(executed)).1 =~= planning_actions(
        name,
        task,
        analysis,
    ) + worker_actions(models, plan, agents, plan.workers.len()) + connection_actions(
        plan,
        plan.connections.len(),
    ) + seq![
        ActionView::ExecuteWorkflow { start_agents: plan.starting_agents, input: task },
        ActionView::Return {
            result: Ok(crate::answer::combined_answers(plan.output_agents, outcomes)),
        },
    ]);
}

} // verus!
