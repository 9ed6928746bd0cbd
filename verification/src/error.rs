//! What can go wrong with a team workflow.
use vstd::prelude::*;
use vstd::std_specs::convert::FromSpecImpl;

verus! {

/// A failure to build an agent, as the host words it.
#[derive(Debug)]
pub struct AgentError {
    pub message: String,
}

/// A failure of the workflow engine, as the host words it.
#[derive(Debug)]
pub struct GraphWorkflowError {
    pub message: String,
}

impl Clone for GraphWorkflowError {
    fn clone(&self) -> (copy: Self)
        ensures
            copy == *self,
    {
        GraphWorkflowError { message: self.message.clone() }
    }
}

/// A text that is no orchestration plan in JSON, as the host words it.
#[derive(Debug)]
pub struct JsonError {
    pub message: String,
}

/// Error type for TeamWorkflow operations.
#[derive(Debug)]
pub enum TeamWorkflowError {
    /// No model is registered under the name
    ModelNotFound(String),
    /// An agent could not be built
    AgentError(AgentError),
    /// The workflow has no leader
    LeaderAgentNotSet,
    /// The workflow engine failed
    GraphWorkflowError(GraphWorkflowError),
    /// The leader's analysis is no plan
    JsonError(JsonError),
}

/// What a [`TeamWorkflowError`] holds.
pub enum TeamWorkflowErrorView {
    ModelNotFound(Seq<char>),
    AgentError(Seq<char>),
    LeaderAgentNotSet,
    GraphWorkflowError(Seq<char>),
    JsonError(Seq<char>),
}

impl View for TeamWorkflowError {
    type V = TeamWorkflowErrorView;

    open spec fn view(&self) -> TeamWorkflowErrorView {
        match self {
            TeamWorkflowError::ModelNotFound(name) => TeamWorkflowErrorView::ModelNotFound(name@),
            TeamWorkflowError::AgentError(e) => TeamWorkflowErrorView::AgentError(e.message@),
            TeamWorkflowError::LeaderAgentNotSet => TeamWorkflowErrorView::LeaderAgentNotSet,
            TeamWorkflowError::GraphWorkflowError(e) => {
                TeamWorkflowErrorView::GraphWorkflowError(e.message@)
            },
            TeamWorkflowError::JsonError(e) => TeamWorkflowErrorView::JsonError(e.message@),
        }
    }
}

/// The message that tells of an error.
pub open spec fn error_text(e: TeamWorkflowErrorView) -> Seq<char> {
    match e {
        TeamWorkflowErrorView::ModelNotFound(name) => "Model not found: "@ + name,
        TeamWorkflowErrorView::AgentError(message) => "Agent error: "@ + message,
        TeamWorkflowErrorView::LeaderAgentNotSet => "Leader agent not set"@,
        TeamWorkflowErrorView::GraphWorkflowError(message) => {
            "Graph workflow error: "@ + message
        },
        TeamWorkflowErrorView::JsonError(message) => "JSON error: "@ + message,
    }
}

impl TeamWorkflowError {
    /// Writes the message that tells of the error.
    pub fn to_string(&self) -> (s: String)
        ensures
            s@ == error_text(self@),
            self matches TeamWorkflowError::ModelNotFound(name) ==> name@.is_suffix_of(s@) && s@.len()
                == "Model not found: "@.len() + name@.len(),
            self matches TeamWorkflowError::AgentError(e) ==> e.message@.is_suffix_of(s@) && s@.len()
                == "Agent error: "@.len() + e.message@.len(),
            self matches TeamWorkflowError::GraphWorkflowError(e) ==> e.message@.is_suffix_of(s@)
                && s@.len() == "Graph workflow error: "@.len() + e.message@.len(),
            self matches TeamWorkflowError::JsonError(e) ==> e.message@.is_suffix_of(s@) && s@.len()
                == "JSON error: "@.len() + e.message@.len(),
    {
        proof {
            match self {
                TeamWorkflowError::ModelNotFound(name) => {
                    crate::text_laws::law_error_message_tells_the_cause(name@)
                },
                TeamWorkflowError::AgentError(e) => {
                    crate::text_laws::law_error_message_tells_the_cause(e.message@)
                },
                TeamWorkflowError::LeaderAgentNotSet => {},
                TeamWorkflowError::GraphWorkflowError(e) => {
                    crate::text_laws::law_error_message_tells_the_cause(e.message@)
                },
                TeamWorkflowError::JsonError(e) => {
                    crate::text_laws::law_error_message_tells_the_cause(e.message@)
                },
            }
        }
        match self {
            TeamWorkflowError::ModelNotFound(name) => {
                "Model not found: ".to_owned().concat(name.as_str())
            },
            TeamWorkflowError::AgentError(e) => {
                "Agent error: ".to_owned().concat(e.message.as_str())
            },
            TeamWorkflowError::LeaderAgentNotSet => "Leader agent not set".to_owned(),
            TeamWorkflowError::GraphWorkflowError(e) => {
                "Graph workflow error: ".to_owned().concat(e.message.as_str())
            },
            TeamWorkflowError::JsonError(e) => {
                "JSON error: ".to_owned().concat(e.message.as_str())
            },
        }
    }
}

impl From<AgentError> for TeamWorkflowError {
    fn from(e: AgentError) -> (error: Self) {
        TeamWorkflowError::AgentError(e)
    }
}

impl FromSpecImpl<AgentError> for TeamWorkflowError {
    open spec fn obeys_from_spec() -> bool {
        true
    }

    open spec fn from_spec(e: AgentError) -> Self {
        TeamWorkflowError::AgentError(e)
    }
}

impl From<GraphWorkflowError> for TeamWorkflowError {
    fn from(e: GraphWorkflowError) -> (error: Self) {
        TeamWorkflowError::GraphWorkflowError(e)
    }
}

impl FromSpecImpl<GraphWorkflowError> for TeamWorkflowError {
    open spec fn obeys_from_spec() -> bool {
        true
    }

    open spec fn from_spec(e: GraphWorkflowError) -> Self {
        TeamWorkflowError::GraphWorkflowError(e)
    }
}

impl From<JsonError> for TeamWorkflowError {
    fn from(e: JsonError) -> (error: Self) {
        TeamWorkflowError::JsonError(e)
    }
}

impl FromSpecImpl<JsonError> for TeamWorkflowError {
    open spec fn obeys_from_spec() -> bool {
        true
    }

    open spec fn from_spec(e: JsonError) -> Self {
        TeamWorkflowError::JsonError(e)
    }
}

} // verus!
