use team_workflow::prompt::{to_leader_prompt, ORCHESTRATE_DESCRIPTION};
use team_workflow::team::available_models;
use team_workflow::text::{quote_all, to_bracketed, to_decimal};
use team_workflow::{
    orchestrate, AgentConnection, AgentError, GraphWorkflowError, JsonError, LLMProvider,
    ModelDescription, OrchestrateTool, OrchestrationPlan, TeamWorkflow, TeamWorkflowError,
};

fn description(name: &str, capabilities: Vec<String>) -> ModelDescription {
    ModelDescription {
        name: name.to_string(),
        description: "Fast".to_string(),
        capabilities,
        context_window: 128000,
        max_tokens: 0,
    }
}

#[test]
fn description_is_written_line_by_line() {
    let d = description("gpt", vec!["coding".to_string(), "math".to_string()]);
    assert_eq!(
        d.to_string(),
        "Model: gpt\nDescription: Fast\nCapabilities: [\"coding\", \"math\"]\nContext Window: 128000\nMax Tokens: 0"
    );
}

#[test]
fn description_without_capabilities() {
    let d = description("gpt", vec![]);
    assert_eq!(
        d.to_string(),
        "Model: gpt\nDescription: Fast\nCapabilities: []\nContext Window: 128000\nMax Tokens: 0"
    );
}

#[test]
fn description_takes_the_list_as_it_is_given() {
    let d = description("gpt", vec!["coding".to_string()]);
    assert_eq!(
        d.describe("none"),
        "Model: gpt\nDescription: Fast\nCapabilities: none\nContext Window: 128000\nMax Tokens: 0"
    );
}

#[test]
fn capabilities_are_written_as_debug_writes_them() {
    let items = vec!["say \"hi\"".to_string(), "a\\b\n".to_string(), "é\u{301}".to_string()];
    let quoted = quote_all(&items);
    assert_eq!(quoted[0], "\"say \\\"hi\\\"\"");
    assert_eq!(quoted[1], "\"a\\\\b\\n\"");
    assert_eq!(to_bracketed(&quoted), format!("{items:?}"));
}

#[test]
fn capabilities_add_no_line_break() {
    let d = ModelDescription {
        name: "two\nlines".to_string(),
        description: "\nthree\nlines".to_string(),
        capabilities: vec!["a\nb".to_string(), "\n\n".to_string(), "\r\u{2028}".to_string()],
        context_window: 10,
        max_tokens: 4096,
    };
    let s = d.to_string();
    assert_eq!(s.matches('\n').count(), 4 + 1 + 2);
    assert!(s.ends_with("Max Tokens: 4096"));
    assert_eq!(d.describe("x\ny").matches('\n').count(), 4 + 1 + 2 + 1);
}

#[test]
fn lists_are_bracketed() {
    assert_eq!(to_bracketed(&vec![]), "[]");
    assert_eq!(to_bracketed(&vec!["a".to_string()]), "[a]");
    assert_eq!(
        to_bracketed(&vec!["a".to_string(), "".to_string(), "c".to_string()]),
        "[a, , c]"
    );
}

#[test]
fn numbers_are_written_in_decimal() {
    for n in [0usize, 1, 2, 3, 4, 5, 6, 7, 8, 9, 10, 99, 100, 1020304050, usize::MAX] {
        assert_eq!(to_decimal(n), format!("{n}"));
    }
    assert_eq!(to_decimal(6789), "6789");
}

#[test]
fn listing_puts_each_description_on_a_new_line() {
    let a = description("a", vec![]);
    let b = description("b", vec![]);
    let (at, bt) = (a.to_string(), b.to_string());
    assert_eq!(available_models(&vec![]), "");
    assert_eq!(
        available_models(&vec![("x".to_string(), a), ("y".to_string(), b)]),
        format!("\n{at}\n{bt}")
    );
}

#[test]
fn prompt_frames_the_models() {
    let prompt = to_leader_prompt("<models>");
    assert!(prompt.starts_with("\n        ROLE:\n        You are an AI Team Leader responsible for"));
    assert!(prompt.contains("        Available models:\n        <models>\n\n        EXAMPLE WORKFLOW:\n"));
    assert!(prompt.contains("        1. workers: [\n           {\n             name: \"DataCollector\",\n"));
    assert!(prompt.contains("           },\n           {\n             name: \"TrendAnalyzer\",\n"));
    assert!(prompt.contains("2. connections: [\"DataCollector→TrendAnalyzer\"]"));
    assert!(prompt.contains("CRITICAL: Each worker MUST include temperature (0.0-1.0) and max_tokens"));
    assert!(prompt.ends_with("\n        Use the `orchestrate` tool to implement your plan.\n        "));
}

#[test]
fn default_prompt_without_models_lists_nothing() {
    let team = TeamWorkflow::new("t".to_string(), "d".to_string()).0;
    let (prompt, tool) = team.default_leader_system_prompt_and_tool();
    assert_eq!(prompt, to_leader_prompt(""));
    assert_eq!(tool.name, "orchestrate");
    assert_eq!(tool.description, ORCHESTRATE_DESCRIPTION);
}

#[test]
fn default_prompt_describes_each_model_once() {
    let mut team = TeamWorkflow::new("t".to_string(), "d".to_string()).0;
    let mut texts: Vec<String> = Vec::new();
    for i in 0..20u64 {
        let d = description(&format!("model-{i}-end"), vec![format!("skill-{i}")]);
        texts.push(d.to_string());
        team.register_model(format!("key-{i}"), LLMProvider::Anthropic(i), d);
    }
    let (prompt, _) = team.default_leader_system_prompt_and_tool();
    let mut total = to_leader_prompt("").len();
    for text in &texts {
        assert_eq!(prompt.matches(text.as_str()).count(), 1);
        total += text.len() + 1;
    }
    assert_eq!(prompt.len(), total);
}

#[test]
fn tool_is_described_with_an_example() {
    let tool = OrchestrateTool::new();
    assert_eq!(tool.name, "orchestrate");
    assert!(tool
        .description
        .starts_with("\n    Orchestrate a team of agents to complete a task.\n    \n    A complex example:\n"));
    assert!(tool.description.contains("\"starting_agents\": [\"QuantumFinanceAnalyst\", \"SolarStormEvaluator\"],"));
    assert!(tool
        .description
        .ends_with("make sure that the goal can be completed well\n    "));
}

#[test]
fn orchestrate_answers_the_plan_itself() {
    let plan = OrchestrationPlan {
        workers: vec![],
        connections: vec![AgentConnection { from: "a".to_string(), to: "b".to_string() }],
        starting_agents: vec!["a".to_string()],
        output_agents: vec!["b".to_string()],
    };
    let answer = orchestrate(plan).unwrap();
    assert!(answer.workers.is_empty());
    assert_eq!(answer.connections.len(), 1);
    assert_eq!(answer.connections[0].from, "a");
    assert_eq!(answer.connections[0].to, "b");
    assert_eq!(answer.starting_agents, vec!["a".to_string()]);
    assert_eq!(answer.output_agents, vec!["b".to_string()]);
}

#[test]
fn errors_are_told_of() {
    let m = |s: &str| s.to_string();
    assert_eq!(TeamWorkflowError::ModelNotFound(m("x")).to_string(), "Model not found: x");
    assert_eq!(TeamWorkflowError::LeaderAgentNotSet.to_string(), "Leader agent not set");
    assert_eq!(
        TeamWorkflowError::from(AgentError { message: m("no key") }).to_string(),
        "Agent error: no key"
    );
    assert_eq!(
        TeamWorkflowError::from(GraphWorkflowError { message: m("cycle") }).to_string(),
        "Graph workflow error: cycle"
    );
    assert_eq!(
        TeamWorkflowError::from(JsonError { message: m("EOF") }).to_string(),
        "JSON error: EOF"
    );
}
