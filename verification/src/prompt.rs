//! The prompt of the leader and the tool that it plans with.
use vstd::prelude::*;
use crate::error::TeamWorkflowError;
use crate::plan::OrchestrationPlan;

verus! {

/// The prompt of the leader up to the list of the available models.
pub const LEADER_PROMPT_HEAD: &'static str = r#"
        ROLE:
        You are an AI Team Leader responsible for designing optimal workflows by orchestrating specialized worker agents. Your decisions directly impact team efficiency and output quality.

        CORE RESPONSIBILITIES:
        1. TASK DECOMPOSITION: Break down complex tasks into specialized subtasks
        2. AGENT DESIGN: For each subtask:
           - Assign clear name/description (e.g., "DataValidator")
           - Select the most suitable model (consider capabilities/task requirements)
           - Set appropriate temperature (0.0-1.0): lower for deterministic tasks, higher for creative tasks
           - Set max_tokens (positive integer): based on expected output length
           - Craft focused system prompts with:
             * Clear role definition
             * Expected output format
             * Quality criteria
        3. WORKFLOW DESIGN:
           - Establish logical execution order via connections
           - Identify starting/final agents
           - Balance parallel vs sequential processing

        OUTPUT REQUIREMENTS:
        Your orchestration plan MUST specify:
        - workers[]: Array of agent configurations (name, description, model, system_prompt, temperature, max_tokens)
        - connections[]: Array of "from→to" relationships
        - starting_agent: Entry point
        - final_agent: Output producer

        CRITICAL: Each worker MUST include temperature (0.0-1.0) and max_tokens (positive integer) fields.

        DESIGN PRINCIPLES:
        1. SPECIALIZATION: Each agent should have a single, well-defined responsibility
        2. BALANCE: Distribute workload evenly across agents
        3. VALIDATION: Ensure output of each agent can be consumed by downstream agents
        4. FALLBACKS: For critical paths, consider backup/redundant agents

        MODEL SELECTION GUIDE:
        Available models:
        "#;

/// The prompt of the leader from the end of the list of the available models.
pub const LEADER_PROMPT_TAIL: &'static str = r#"

        EXAMPLE WORKFLOW:
        Task: "Analyze market trends and generate investment recommendations"
        1. workers: [
           {
             name: "DataCollector",
             description: "Gathers raw market data from APIs",
             model: "data-crawler",
             system_prompt: "Collect...output as JSON with [timestamp, value] pairs",
             temperature: 0.3,
             max_tokens: 2000
           },
           {
             name: "TrendAnalyzer",
             description: "Identifies statistical patterns",
             model: "stats-v3",
             system_prompt: "Input raw data...output [trend_lines, anomalies]",
             temperature: 0.7,
             max_tokens: 3000
           }
         ]
        2. connections: ["DataCollector→TrendAnalyzer"]
        3. starting_agent: ["DataCollector"]
        4. output_agents: ["TrendAnalyzer"]

        Use the `orchestrate` tool to implement your plan.
        "#;

/// What the leader is asked to do with a task, up to the task.
pub const ANALYSIS_REQUEST: &'static str =
    "Analyze the following task and determine what worker agents are needed, what models they should use, and how they should be orchestrated: ";

/// The name under which the leader calls the tool.
pub const ORCHESTRATE_NAME: &'static str = "orchestrate";

/// What the leader is told of the tool.
pub const ORCHESTRATE_DESCRIPTION: &'static str = r#"
    Orchestrate a team of agents to complete a task.
    
    A complex example:
    ```json
    {
    "orchestration_plan": {
        "connections": [
        {
            "from": "QuantumFinanceAnalyst",
            "to": "CrossDomainArbiter"
        },
        {
            "from": "SolarStormEvaluator",
            "to": "CrossDomainArbiter"
        },
        {
            "from": "CrossDomainArbiter",
            "to": "CrisisSimulator"
        },
        {
            "from": "CrisisSimulator",
            "to": "ExecutiveOfficer"
        }
        ],
        "output_agents": ["ExecutiveOfficer"],
        "starting_agents": ["QuantumFinanceAnalyst", "SolarStormEvaluator"],
        "workers": [
        {
            "name": "QuantumFinanceAnalyst",
            "description": "Quantum financial model analyst (92% crash probability assessment)",
            "model": "reasoning",
            "temperature": 0.7,
            "max_tokens": 4000,
            "system_prompt": "You analyze quantum finance model predictions: 92% probability of market crash within 3 days. Must evaluate: 1) Whether the model ignores recent policy changes 2) Impact of qubit errors 3) Recommended stop-loss strategies. Output must contain [Reliability Score], [Potential Biases], and [Emergency Recommendations] sections."
        },
        {
            "name": "SolarStormEvaluator",
            "description": "Solar storm risk assessor (85% eruption probability analysis)",
            "model": "reasoning",
            "temperature": 0.6,
            "max_tokens": 4000,
            "system_prompt": "You assess solar storm threats: 85% probability within 48 hours (30% satellite-only impact). Must analyze: 1) Differential effects of CMEs vs solar flares 2) Quantum server vulnerability 3) Protection recommendations. Output must include [Impact Matrix], [Failure Probability], and [Protection Measures]."
        },
        {
            "name": "CrossDomainArbiter",
            "description": "Cross-domain conflict arbitrator",
            "model": "reasoning",
            "temperature": 0.3,
            "max_tokens": 5000,
            "system_prompt": "You resolve conflicts between quantum finance and climate risks. Input: contradictory reports from both experts. Must: 1) Build loss function (financial vs technical risks) 2) Identify common blind spots 3) Generate 3 compromise solutions. Output requires [Conflict Map], [Decision Tree], and [Solution Portfolio]."
        },
        {
            "name": "CrisisSimulator",
            "description": "Multi-scenario crisis simulator",
            "model": "reasoning",
            "temperature": 0.2,
            "max_tokens": 6000,
            "system_prompt": "You simulate decision path outcomes. Input: CrossDomainArbiter's solutions. Must: 1) Run 2000 Monte Carlo simulations 2) Calculate VaR(95%) for each path 3) Identify black swan triggers. Output must contain [Risk Heatmap], [Capital Adequacy Curve], and [Extreme Event Alerts]."
        },
        {
            "name": "ExecutiveOfficer",
            "description": "Final decision executor",
            "model": "reasoning",
            "temperature": 0.1,
            "max_tokens": 3000,
            "system_prompt": "You make the final decision. Input: CrisisSimulator's optimal path. Must: 1) Sign execution orders 2) Assign responsibility matrix 3) Generate legal justification. Output requires [Execution Order], [Responsibility Framework], and [Legal Disclaimers]."
        }
        ]
    }
    }
    ```
    If the problem is difficult and complex, you need to orchestrate it better. Although the workflow will become more complex, make sure that the goal can be completed well
    "#;

/// What the leader is asked to do with `task`.
pub open spec fn analysis_task(task: Seq<char>) -> Seq<char> {
    ANALYSIS_REQUEST@ + task
}

/// Writes what the leader is asked to do with `task`.
pub fn to_analysis_task(task: &str) -> (input: String)
    ensures
        input@ == analysis_task(task@),
        ANALYSIS_REQUEST@.is_prefix_of(input@),
        task@.is_suffix_of(input@),
        input@.len() == ANALYSIS_REQUEST@.len() + task@.len(),
{
    proof {
        crate::text_laws::law_analysis_task_holds_the_task(task@);
    }
    ANALYSIS_REQUEST.to_owned().concat(task)
}

/// The prompt of a leader that may choose among the models listed in `available_models`.
pub open spec fn leader_prompt(available_models: Seq<char>) -> Seq<char> {
    LEADER_PROMPT_HEAD@ + available_models + LEADER_PROMPT_TAIL@
}

/// Writes the prompt of a leader.
pub fn to_leader_prompt(available_models: &str) -> (prompt: String)
    ensures
        prompt@ == leader_prompt(available_models@),
        LEADER_PROMPT_HEAD@.is_prefix_of(prompt@),
        LEADER_PROMPT_TAIL@.is_suffix_of(prompt@),
        prompt@.len() == LEADER_PROMPT_HEAD@.len() + available_models@.len()
            + LEADER_PROMPT_TAIL@.len(),
        prompt@.subrange(
            LEADER_PROMPT_HEAD@.len() as int,
            prompt@.len() - LEADER_PROMPT_TAIL@.len(),
        ) == available_models@,
{
    proof {
        crate::text_laws::law_leader_prompt_frames_the_models(available_models@);
    }
    let mut prompt = LEADER_PROMPT_HEAD.to_owned();
    prompt.append(available_models);
    prompt.append(LEADER_PROMPT_TAIL);
    prompt
}

/// The tool through which a leader hands over its plan.
#[derive(Debug)]
pub struct OrchestrateTool {
    /// The name under which the leader calls the tool
    pub name: &'static str,
    /// What the leader is told of the tool
    pub description: &'static str,
}

impl OrchestrateTool {
    /// The tool, with its own name and description.
    pub open spec fn is_orchestrate(&self) -> bool {
        &&& self.name@ == ORCHESTRATE_NAME@
        &&& self.description@ == ORCHESTRATE_DESCRIPTION@
    }

    /// The tool.
    pub fn new() -> (tool: Self)
        ensures
            tool.is_orchestrate(),
            tool.name@ == ORCHESTRATE_NAME@,
            tool.description@ == ORCHESTRATE_DESCRIPTION@,
    {
        OrchestrateTool { name: ORCHESTRATE_NAME, description: ORCHESTRATE_DESCRIPTION }
    }
}

/// What a call of the tool answers: the plan itself.
pub fn orchestrate(orchestration_plan: OrchestrationPlan) -> (answer: Result<
    OrchestrationPlan,
    TeamWorkflowError,
>)
    ensures
        answer == Ok::<OrchestrationPlan, TeamWorkflowError>(orchestration_plan),
{
    Ok(orchestration_plan)
}

} // verus!
