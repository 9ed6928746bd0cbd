//! The answers of a team: what its output agents said.
use vstd::prelude::*;
use dashmap::DashMap;
use crate::error::GraphWorkflowError;
use crate::maps::{find_outcome, insert_answer, new_answers};

verus! {

/// What `agent` answers when it ended with `outcome`: what it said, or a line that tells of
/// its failure.
pub open spec fn answer_text(agent: Seq<char>, outcome: Result<Seq<char>, Seq<char>>) -> Seq<
    char,
> {
    match outcome {
        Ok(output) => output,
        Err(message) => "Agent: "@ + agent + ", Error: "@ + message,
    }
}

/// The answers of a team: one of each output agent that has an outcome.
pub open spec fn combined_answers(
    output_agents: Seq<Seq<char>>,
    outcomes: crate::maps::Outcomes,
) -> crate::maps::Answers {
    Map::new(
        |agent: Seq<char>| output_agents.contains(agent) && outcomes.contains_key(agent),
        |agent: Seq<char>| answer_text(agent, outcomes[agent]),
    )
}

/// Writes what `agent` answers when it ended with `outcome`.
pub fn to_answer(agent: &str, outcome: Result<String, GraphWorkflowError>) -> (answer: String)
    ensures
        answer@ == answer_text(agent@, crate::maps::outcome_view(outcome)),
        outcome matches Ok(output) ==> answer@ == output@,
        outcome matches Err(e) ==> answer@ == "Agent: "@ + agent@ + ", Error: "@ + e.message@,
{
    match outcome {
        Ok(output) => output,
        Err(e) => {
            let mut answer = "Agent: ".to_owned();
            answer.append(agent);
            answer.append(", Error: ");
            answer.append(e.message.as_str());
            answer
        },
    }
}

/// Combines the outcomes of the output agents into the answers of the team.
pub fn combine_results(
    output_agents: &Vec<String>,
    outcomes: DashMap<String, Result<String, GraphWorkflowError>>,
) -> (answers: DashMap<String, String>)
    ensures
        crate::maps::held_answers(answers) == combined_answers(
            crate::text::texts(output_agents@),
            crate::maps::held_outcomes(outcomes),
        ),
        forall|agent: Seq<char>| #[trigger]
            crate::maps::held_answers(answers).contains_key(agent) <==> {
                &&& crate::maps::held_outcomes(outcomes).contains_key(agent)
                &&& exists|i: int|
                    0 <= i < output_agents@.len() && (#[trigger] output_agents@[i])@ == agent
            },
        forall|agent: Seq<char>| #[trigger]
            crate::maps::held_answers(answers).contains_key(agent) ==> match
            crate::maps::held_outcomes(outcomes)[agent] {
                Ok(output) => crate::maps::held_answers(answers)[agent] == output,
                Err(message) => crate::maps::held_answers(answers)[agent] == "Agent: "@ + agent
                    + ", Error: "@ + message,
            },
{
    let ghost agents = crate::text::texts(output_agents@);
    let ghost held = crate::maps::held_outcomes(outcomes);
    let mut answers = new_answers();
    let mut i: usize = 0;
    assert(crate::maps::held_answers(answers) =~= combined_answers(agents.take(0), held));
    while i < output_agents.len()
        invariant
            i <= output_agents.len(),
            agents == crate::text::texts(output_agents@),
            held == crate::maps::held_outcomes(outcomes),
            crate::maps::held_answers(answers) == combined_answers(agents.take(i as int), held),
        decreases output_agents.len() - i,
    {
        let agent = &output_agents[i];
        let ghost before = agents.take(i as int);
        let ghost after = agents.take(i + 1);
        assert(after =~= before.push(agent@));
        assert forall|a: Seq<char>| after.contains(a) <==> before.contains(a) || a == agent@ by {
            if before.contains(a) {
                let k = before.index_of(a);
                assert(after[k] == a);
            }
            assert(after[i as int] == agent@);
        }
        if let Some(outcome) = find_outcome(&outcomes, agent.as_str()) {
            let answer = to_answer(agent.as_str(), outcome);
            insert_answer(&mut answers, agent.clone(), answer);
        }
        assert(crate::maps::held_answers(answers) =~= combined_answers(after, held));
        i += 1;
    }
    assert(agents.take(output_agents.len() as int) =~= agents);
    assert forall|agent: Seq<char>| #[trigger]
        crate::maps::held_answers(answers).contains_key(agent) <==> {
            &&& held.contains_key(agent)
            &&& exists|k: int|
                0 <= k < output_agents@.len() && (#[trigger] output_agents@[k])@ == agent
        } by {
        if agents.contains(agent) {
            let k = agents.index_of(agent);
            assert(output_agents@[k]@ == agent);
        }
        if exists|k: int| 0 <= k < output_agents@.len() && (#[trigger] output_agents@[k])@
            == agent {
            let k = choose|k: int|
                0 <= k < output_agents@.len() && (#[trigger] output_agents@[k])@ == agent;
            assert(agents[k] == agent);
        }
    }
    answers
}

} // verus!
