use team_workflow::{LLMProvider, ModelDescription, TeamWorkflow, TeamWorkflowError};

fn description(name: &str) -> ModelDescription {
    ModelDescription {
        name: name.to_string(),
        description: format!("{name} model"),
        capabilities: vec!["reasoning".to_string(), "math".to_string()],
        context_window: 128000,
        max_tokens: 4096,
    }
}

fn team() -> TeamWorkflow {
    TeamWorkflow::new("research".to_string(), "A research team".to_string()).0
}

#[test]
fn new_team_is_empty() {
    let team = team();
    assert_eq!(team.name, "research");
    assert_eq!(team.description, "A research team");
    match team.get_model("reasoning") {
        Err(TeamWorkflowError::ModelNotFound(name)) => assert_eq!(name, "reasoning"),
        _ => panic!("a new team knows no model"),
    }
}

#[test]
fn engine_is_set_up_with_the_name_and_description_of_the_team() {
    let (team, setup) = TeamWorkflow::new("research".to_string(), "A research team".to_string());
    assert_eq!(setup.name, "research");
    assert_eq!(setup.description, "A research team");
    assert_eq!(team.name, setup.name);
    assert_eq!(team.description, setup.description);
}

#[test]
fn registered_model_is_found_as_it_was_registered() {
    let mut team = team();
    team.register_model("r".to_string(), LLMProvider::DeepSeek(7), description("deep"));
    let (provider, found) = team.get_model("r").unwrap();
    assert_eq!(provider, LLMProvider::DeepSeek(7));
    assert_eq!(found.name, "deep");
    assert_eq!(found.description, "deep model");
    assert_eq!(found.capabilities, vec!["reasoning".to_string(), "math".to_string()]);
    assert_eq!(found.context_window, 128000);
    assert_eq!(found.max_tokens, 4096);
    assert!(team.get_model("deep").is_err());
    assert!(team.get_model("").is_err());
}

#[test]
fn registering_one_model_leaves_the_others() {
    let mut team = team();
    team.register_model("a".to_string(), LLMProvider::OpenAI(1), description("first"));
    team.register_model("b".to_string(), LLMProvider::Gemini(2), description("second"));
    assert_eq!(team.get_model("a").unwrap().1.name, "first");
    assert_eq!(team.get_model("b").unwrap().1.name, "second");
}

#[test]
fn last_registration_under_a_name_wins() {
    let mut team = team();
    team.register_model("a".to_string(), LLMProvider::OpenAI(1), description("first"));
    team.register_model("a".to_string(), LLMProvider::OpenRouter(2), description("second"));
    let (provider, found) = team.get_model("a").unwrap();
    assert_eq!(provider, LLMProvider::OpenRouter(2));
    assert_eq!(found.name, "second");
}

#[test]
fn registrations_under_two_names_commute() {
    let mut one = team();
    one.register_model("a".to_string(), LLMProvider::OpenAI(1), description("first"));
    one.register_model("b".to_string(), LLMProvider::Gemini(2), description("second"));
    let mut two = team();
    two.register_model("b".to_string(), LLMProvider::Gemini(2), description("second"));
    two.register_model("a".to_string(), LLMProvider::OpenAI(1), description("first"));
    for name in ["a", "b"] {
        let (p, d) = one.get_model(name).unwrap();
        let (q, e) = two.get_model(name).unwrap();
        assert_eq!(p, q);
        assert_eq!(d.to_string(), e.to_string());
    }
}
