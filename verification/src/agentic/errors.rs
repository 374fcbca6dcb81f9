//! Errors of the agent pipeline.

use crate::gmail::{concat, gmail_error_text, GmailError};
use crate::queue::{queue_error_text, QueueError};
use crate::text::{decimal, decimal_string};
use vstd::string::StringExecFns;
use vstd::prelude::*;

verus! {

/// Top-level agent and orchestration errors. Failures reported by outside
/// services carry those services' messages as text.
#[derive(Debug)]
pub enum AgentError {
    /// The blackboard lacks something a step needs.
    Context(String),
    /// No specialist is registered under this name.
    UnknownAgent(String),
    /// The mission used up its step budget.
    MaxStepsReached(u32),
    /// A Gmail operation failed.
    Gmail(GmailError),
    /// A queue operation failed.
    Queue(QueueError),
    /// The language model call failed.
    Prompt(String),
    /// A specialist's reply could not be read as the expected JSON.
    JsonResponse { agent: String, source: String, response: String },
    /// A filesystem operation failed.
    Io(String),
    /// A value could not be serialized.
    Json(String),
    /// The answer endpoint could not be reached.
    AnswerEndpoint { endpoint: String, source: String },
    /// The answer endpoint returned no usable text.
    AnswerEndpointEmpty,
    /// The Datagouv MCP endpoint could not be reached.
    DatagouvMcp { endpoint: String, source: String },
    /// The Datagouv MCP tool reported an error.
    DatagouvToolError { tool: String, message: String },
}


/// How an agent error reads to the user.
pub open spec fn agent_error_text(e: AgentError) -> Seq<char> {
    match e {
        AgentError::Context(m) => "context error: "@ + m@,
        AgentError::UnknownAgent(a) => "unknown agent `"@ + a@ + "`"@,
        AgentError::MaxStepsReached(n) => "mission exceeded max steps ("@ + decimal(n as nat) + ")"@,
        AgentError::Gmail(g) => "Gmail operation failed: "@ + gmail_error_text(g),
        AgentError::Queue(q) => "queue operation failed: "@ + queue_error_text(q),
        AgentError::Prompt(m) => "model completion failed: "@ + m@,
        AgentError::JsonResponse { agent, source, response } => "failed to parse structured JSON from "@
            + agent@ + ": "@ + source@ + ". Response: "@ + response@,
        AgentError::Io(m) => "filesystem error: "@ + m@,
        AgentError::Json(m) => "serialization error: "@ + m@,
        AgentError::AnswerEndpoint { endpoint, source } => "failed to call answer endpoint: "@ + endpoint@
            + " - "@ + source@,
        AgentError::AnswerEndpointEmpty => "answer endpoint returned no usable text"@,
        AgentError::DatagouvMcp { endpoint, source } => "Datagouv MCP call failed: "@ + endpoint@ + " - "@
            + source@,
        AgentError::DatagouvToolError { tool, .. } => "Datagouv MCP returned an error: "@ + tool@,
    }
}

impl AgentError {
    /// The error as the user reads it.
    pub fn message(&self) -> (r: String)
        ensures
            r@ == agent_error_text(*self),
    {
        match self {
            AgentError::Context(m) => concat("context error: ", m.as_str()),
            AgentError::UnknownAgent(a) => {
                let mut s = concat("unknown agent `", a.as_str());
                s.append("`");
                s
            },
            AgentError::MaxStepsReached(n) => {
                let mut s = concat("mission exceeded max steps (", decimal_string(*n as u64).as_str());
                s.append(")");
                s
            },
            AgentError::Gmail(g) => concat("Gmail operation failed: ", g.message().as_str()),
            AgentError::Queue(q) => concat("queue operation failed: ", q.message().as_str()),
            AgentError::Prompt(m) => concat("model completion failed: ", m.as_str()),
            AgentError::JsonResponse { agent, source, response } => {
                let mut s = concat("failed to parse structured JSON from ", agent.as_str());
                s.append(": ");
                s.append(source.as_str());
                s.append(". Response: ");
                s.append(response.as_str());
                s
            },
            AgentError::Io(m) => concat("filesystem error: ", m.as_str()),
            AgentError::Json(m) => concat("serialization error: ", m.as_str()),
            AgentError::AnswerEndpoint { endpoint, source } => {
                let mut s = concat("failed to call answer endpoint: ", endpoint.as_str());
                s.append(" - ");
                s.append(source.as_str());
                s
            },
            AgentError::AnswerEndpointEmpty => String::from_str("answer endpoint returned no usable text"),
            AgentError::DatagouvMcp { endpoint, source } => {
                let mut s = concat("Datagouv MCP call failed: ", endpoint.as_str());
                s.append(" - ");
                s.append(source.as_str());
                s
            },
            AgentError::DatagouvToolError { tool, .. } => concat("Datagouv MCP returned an error: ", tool.as_str()),
        }
    }
}

} // verus!
