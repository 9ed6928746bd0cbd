use dashmap::DashMap;
use team_workflow::answer::{combine_results, to_answer};
use team_workflow::{
    Action, AgentBuilder, AgentConfig, AgentConnection, AgentError, AgentHandle, Event, Execution,
    GraphWorkflowError, JsonError, LLMProvider, ModelDescription, OrchestrationPlan, TeamWorkflow,
    TeamWorkflowError, Temperature, WorkerAgent,
};

fn text(s: &str) -> String {
    s.to_string()
}

fn failure(s: &str) -> GraphWorkflowError {
    GraphWorkflowError { message: text(s) }
}

fn team() -> TeamWorkflow {
    let mut team = TeamWorkflow::new(text("t"), text("d")).0;
    for (name, provider) in [("fast", LLMProvider::OpenAI(3)), ("deep", LLMProvider::Anthropic(4))] {
        team.register_model(
            text(name),
            provider,
            ModelDescription {
                name: text(name),
                description: text(""),
                capabilities: vec![],
                context_window: 1,
                max_tokens: 1,
            },
        );
    }
    team
}

fn worker(name: &str, model: &str) -> WorkerAgent {
    WorkerAgent {
        name: text(name),
        description: format!("{name} description"),
        system_prompt: format!("{name} prompt"),
        model: text(model),
        temperature: Temperature { bits: 0.7f64.to_bits() },
        max_tokens: 2000,
    }
}

fn plan() -> OrchestrationPlan {
    OrchestrationPlan {
        workers: vec![worker("A", "fast"), worker("B", "deep")],
        connections: vec![
            AgentConnection { from: text("A"), to: text("B") },
            AgentConnection { from: text("B"), to: text("A") },
        ],
        starting_agents: vec![text("A"), text("X")],
        output_agents: vec![text("B"), text("A"), text("B"), text("Y")],
    }
}

fn built(id: u64) -> Event {
    Event::AgentBuilt { agent: Ok(AgentHandle { id }) }
}

fn named(name: &str) -> Event {
    Event::AgentNamed { name: text(name) }
}

fn connected() -> Event {
    Event::AgentsConnected { connected: Ok(()) }
}

/// Runs an execution through `events`: the actions on the way, and what it has come to.
fn run(team: &TeamWorkflow, events: Vec<Event>) -> (Execution, Vec<Action>) {
    let (mut execution, first) = team.execute(text("the task")).unwrap();
    let mut actions = vec![first];
    for event in events {
        let (next, action) = execution.advance(team, event).unwrap();
        execution = next;
        actions.push(action);
    }
    (execution, actions)
}

fn led_team() -> TeamWorkflow {
    let mut team = team();
    team.set_leader(AgentHandle { id: 9 });
    team
}

fn planned(plan: OrchestrationPlan) -> Vec<Event> {
    vec![
        named("Boss"),
        Event::AgentExecuted { output: Ok(text("analysis")) },
        Event::PlanParsed { plan: Ok(plan) },
    ]
}

fn error_of(action: &Action) -> String {
    match action {
        Action::Return { result: Err(e) } => e.to_string(),
        other => panic!("no error: {other:?}"),
    }
}

#[test]
fn no_execution_without_a_leader() {
    assert!(matches!(
        team().execute(text("task")),
        Err(TeamWorkflowError::LeaderAgentNotSet)
    ));
}

#[test]
fn leader_is_registered_and_analyzes_the_task() {
    let mut team = team();
    match team.set_leader(AgentHandle { id: 8 }) {
        Action::RegisterAgent { agent } => assert_eq!(agent.id, 8),
        other => panic!("{other:?}"),
    }
    team.set_leader(AgentHandle { id: 9 });
    let (execution, action) = team.execute(text("Plan a trip")).unwrap();
    assert!(matches!(action, Action::NameAgent { agent } if agent.id == 9));
    match execution.advance(&team, named("Boss")) {
        Some((Execution::Analyzing { task }, Action::ExecuteAgent { name, input })) => {
            assert_eq!(task, "Plan a trip");
            assert_eq!(name, "Boss");
            assert_eq!(
                input,
                "Analyze the following task and determine what worker agents are needed, what models they should use, and how they should be orchestrated: Plan a trip"
            );
        }
        other => panic!("{other:?}"),
    }
    assert!(team.get_model("fast").is_ok());
}

#[test]
fn leader_is_run_under_the_name_it_has_when_asked() {
    let team = led_team();
    for present in ["Boss", "Chief"] {
        let (execution, _) = team.execute(text("task")).unwrap();
        match execution.advance(&team, named(present)) {
            Some((_, Action::ExecuteAgent { name, .. })) => assert_eq!(name, present),
            other => panic!("{other:?}"),
        }
    }
}

#[test]
fn nothing_follows_an_event_that_is_not_waited_for() {
    let team = led_team();
    let (execution, _) = team.execute(text("task")).unwrap();
    assert!(execution.advance(&team, Event::AgentRegistered).is_none());
    let over = Execution::Finished;
    assert!(over.advance(&team, connected()).is_none());
    let beyond = Execution::Registering { task: text("task"), plan: plan(), worker: 2 };
    assert!(beyond.advance(&team, Event::AgentRegistered).is_none());
    let last = Execution::Registering { task: text("task"), plan: plan(), worker: 1 };
    assert!(last.advance(&team, Event::AgentRegistered).is_some());
    let unbuilt = Execution::Building { task: text("task"), plan: plan(), worker: usize::MAX };
    assert!(unbuilt.advance(&team, built(1)).is_none());
    let apart = Execution::Connecting { task: text("task"), plan: plan(), connection: usize::MAX };
    assert!(apart.advance(&team, connected()).is_none());
}

#[test]
fn successful_execution() {
    let team = led_team();
    let outcomes = DashMap::new();
    outcomes.insert(text("A"), Ok(text("from A")));
    outcomes.insert(text("B"), Err(failure("timeout")));
    outcomes.insert(text("C"), Ok(text("from C")));
    let mut events = planned(plan());
    events.extend([
        built(1),
        Event::AgentRegistered,
        built(2),
        Event::AgentRegistered,
        connected(),
        connected(),
        Event::WorkflowExecuted { outcomes: Ok(outcomes) },
    ]);
    let (execution, mut actions) = run(&team, events);
    assert!(matches!(execution, Execution::Finished));
    assert_eq!(actions.len(), 11);
    let last = actions.pop().unwrap();
    assert!(matches!(&actions[0], Action::NameAgent { agent } if agent.id == 9));
    assert!(matches!(&actions[1], Action::ExecuteAgent { name, .. } if name == "Boss"));
    assert!(matches!(&actions[2], Action::ParsePlan { analysis } if analysis == "analysis"));
    match &actions[3] {
        Action::BuildAgent { config } => {
            assert_eq!(config.builder, AgentBuilder::OpenAI);
            assert_eq!(config.provider, LLMProvider::OpenAI(3));
            assert_eq!(config.agent_name, "A");
            assert_eq!(config.description, "A description");
            assert_eq!(config.system_prompt, "A prompt");
            assert_eq!(f64::from_bits(config.temperature.bits), 0.7);
            assert_eq!(config.max_tokens, 2000);
        }
        other => panic!("{other:?}"),
    }
    assert!(matches!(&actions[4], Action::RegisterAgent { agent } if agent.id == 1));
    assert!(matches!(
        &actions[5],
        Action::BuildAgent { config } if config.agent_name == "B"
            && config.provider == LLMProvider::Anthropic(4)
            && config.builder == AgentBuilder::Anthropic
    ));
    assert!(matches!(&actions[6], Action::RegisterAgent { agent } if agent.id == 2));
    assert!(matches!(&actions[7], Action::ConnectAgents { from, to } if from == "A" && to == "B"));
    assert!(matches!(&actions[8], Action::ConnectAgents { from, to } if from == "B" && to == "A"));
    match &actions[9] {
        Action::ExecuteWorkflow { start_agents, input } => {
            assert_eq!(start_agents, &vec![text("A"), text("X")]);
            assert_eq!(input, "the task");
        }
        other => panic!("{other:?}"),
    }
    match last {
        Action::Return { result: Ok(answers) } => {
            assert_eq!(answers.len(), 2);
            assert_eq!(answers.get("A").unwrap().value(), "from A");
            assert_eq!(answers.get("B").unwrap().value(), "Agent: B, Error: timeout");
        }
        other => panic!("{other:?}"),
    }
}

#[test]
fn empty_plan_runs_the_workflow_at_once() {
    let team = led_team();
    let empty = OrchestrationPlan {
        workers: vec![],
        connections: vec![],
        starting_agents: vec![],
        output_agents: vec![],
    };
    let mut events = planned(empty);
    events.push(Event::WorkflowExecuted { outcomes: Ok(DashMap::new()) });
    let (execution, actions) = run(&team, events);
    assert!(matches!(execution, Execution::Finished));
    assert_eq!(actions.len(), 5);
    assert!(matches!(&actions[3], Action::ExecuteWorkflow { start_agents, .. } if start_agents.is_empty()));
    assert!(matches!(&actions[4], Action::Return { result: Ok(answers) } if answers.is_empty()));
}

#[test]
fn missing_model_ends_the_execution_after_the_workers_before_it() {
    let team = led_team();
    let mut p = plan();
    p.workers[1].model = text("none");
    let mut events = planned(p);
    events.extend([built(1), Event::AgentRegistered]);
    let (execution, actions) = run(&team, events);
    assert!(matches!(execution, Execution::Finished));
    assert_eq!(actions.len(), 6);
    assert!(matches!(&actions[4], Action::RegisterAgent { .. }));
    assert!(matches!(
        &actions[5],
        Action::Return { result: Err(TeamWorkflowError::ModelNotFound(name)) } if name == "none"
    ));
}

#[test]
fn missing_model_of_the_first_worker() {
    let team = led_team();
    let mut p = plan();
    p.workers[0].model = text("none");
    let (_, actions) = run(&team, planned(p));
    assert_eq!(actions.len(), 4);
    assert_eq!(error_of(&actions[3]), "Model not found: none");
}

#[test]
fn failed_analysis_ends_the_execution() {
    let (execution, actions) = run(
        &led_team(),
        vec![named("Boss"), Event::AgentExecuted { output: Err(failure("offline")) }],
    );
    assert!(matches!(execution, Execution::Finished));
    assert_eq!(error_of(&actions[2]), "Graph workflow error: offline");
}

#[test]
fn analysis_that_is_no_plan_ends_the_execution() {
    let (execution, actions) = run(
        &led_team(),
        vec![
            named("Boss"),
            Event::AgentExecuted { output: Ok(text("{")) },
            Event::PlanParsed { plan: Err(JsonError { message: text("EOF") }) },
        ],
    );
    assert!(matches!(execution, Execution::Finished));
    assert!(matches!(&actions[2], Action::ParsePlan { analysis } if analysis == "{"));
    assert_eq!(error_of(&actions[3]), "JSON error: EOF");
}

#[test]
fn agent_that_cannot_be_built_ends_the_execution() {
    let mut events = planned(plan());
    events.push(Event::AgentBuilt { agent: Err(AgentError { message: text("no key") }) });
    let (execution, actions) = run(&led_team(), events);
    assert!(matches!(execution, Execution::Finished));
    assert_eq!(error_of(&actions[4]), "Agent error: no key");
}

#[test]
fn connection_that_cannot_be_made_ends_the_execution() {
    let mut events = planned(plan());
    events.extend([
        built(1),
        Event::AgentRegistered,
        built(2),
        Event::AgentRegistered,
        connected(),
        Event::AgentsConnected { connected: Err(failure("cycle")) },
    ]);
    let (execution, actions) = run(&led_team(), events);
    assert!(matches!(execution, Execution::Finished));
    assert_eq!(error_of(&actions[9]), "Graph workflow error: cycle");
}

#[test]
fn failed_workflow_ends_the_execution() {
    let mut p = plan();
    p.workers.clear();
    p.connections.clear();
    let mut events = planned(p);
    events.push(Event::WorkflowExecuted { outcomes: Err(failure("no such agent")) });
    let (execution, actions) = run(&led_team(), events);
    assert!(matches!(execution, Execution::Finished));
    assert_eq!(error_of(&actions[4]), "Graph workflow error: no such agent");
}

#[test]
fn each_provider_has_its_builder() {
    let w = worker("W", "m");
    let builder = |p: LLMProvider| AgentConfig::for_worker(&w, p).builder;
    assert_eq!(builder(LLMProvider::Anthropic(0)), AgentBuilder::Anthropic);
    assert_eq!(builder(LLMProvider::DeepSeek(0)), AgentBuilder::DeepSeek);
    assert_eq!(builder(LLMProvider::Gemini(0)), AgentBuilder::Gemini);
    assert_eq!(builder(LLMProvider::OpenAI(0)), AgentBuilder::OpenAI);
    assert_eq!(builder(LLMProvider::OpenRouter(0)), AgentBuilder::OpenRouter);
}

#[test]
fn workers_and_connections_are_taken_in_order() {
    let team = team();
    let p = plan();
    let second = team.create_worker_agents(&p, 1).unwrap().unwrap();
    assert_eq!(second.agent_name, "B");
    assert!(team.create_worker_agents(&p, 2).unwrap().is_none());
    assert!(team.create_worker_agents(&p, usize::MAX).unwrap().is_none());
    assert_eq!(TeamWorkflow::create_workflow_connections(&p, 1).unwrap().from, "B");
    assert!(TeamWorkflow::create_workflow_connections(&p, 2).is_none());
}

#[test]
fn answers_do_not_depend_on_the_order_of_the_output_agents() {
    let outcomes = || {
        let m = DashMap::new();
        m.insert(text("A"), Ok(text("a")));
        m.insert(text("B"), Ok(text("b")));
        m
    };
    let one = combine_results(&vec![text("A"), text("B"), text("A")], outcomes());
    let two = combine_results(&vec![text("B"), text("A")], outcomes());
    assert_eq!(one.len(), 2);
    assert_eq!(two.len(), 2);
    for name in ["A", "B"] {
        assert_eq!(one.get(name).unwrap().value(), two.get(name).unwrap().value());
    }
}

#[test]
fn answer_is_the_output_or_tells_of_the_failure() {
    assert_eq!(to_answer("A", Ok(text("out"))), "out");
    assert_eq!(to_answer("A", Err(failure("boom"))), "Agent: A, Error: boom");
}
