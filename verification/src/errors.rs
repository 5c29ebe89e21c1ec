//! The error taxonomy of the agent subsystem.
//!
//! Agent-level errors terminate an invocation and are persisted as the
//! queue item's failure text; tool errors are recovered locally and
//! surfaced to the model as a `tool`-role message.

use vstd::prelude::*;
use crate::strutil::dec_digits;

verus! {

/// Why an agent invocation ended without a final answer.
#[derive(Debug, Clone)]
pub enum AgentError {
    /// The global AI master switch is off.
    AiDisabled,
    /// Neither the agent nor the global settings name a model.
    NoModelConfigured,
    /// The process-wide queue manager was requested before it was created.
    QueueNotInitialized,
    /// The backend answered with a non-success status; its body is kept
    /// for diagnostics.
    HttpError { status: u16, body: String },
    /// The backend's response could not be decoded.
    DecodeError { detail: String },
    /// The first response carried no choice at all.
    NoChoices,
    /// The follow-up response carried no choice at all.
    NoFinalResponse,
}

impl AgentError {
    /// The diagnostic text of the error.
    pub open spec fn message_spec(self) -> Seq<char> {
        match self {
            AgentError::AiDisabled => "AI features are not enabled"@,
            AgentError::NoModelConfigured => "No model specified and no default model set"@,
            AgentError::QueueNotInitialized => "Queue manager not initialized"@,
            AgentError::HttpError { status, body } => "Failed to get chat completion: "@
                + dec_digits(status as nat) + " - "@ + body@,
            AgentError::DecodeError { detail } => "Failed to decode response: "@ + detail@,
            AgentError::NoChoices => "No choices in response"@,
            AgentError::NoFinalResponse => "No response from LLM"@,
        }
    }

    /// Render the diagnostic text of the error.
    pub fn message(&self) -> (r: String)
        ensures
            r@ == self.message_spec(),
    {
        match self {
            AgentError::AiDisabled => "AI features are not enabled".to_owned(),
            AgentError::NoModelConfigured => "No model specified and no default model set".to_owned(),
            AgentError::QueueNotInitialized => "Queue manager not initialized".to_owned(),
            AgentError::HttpError { status, body } => {
                let mut out = "Failed to get chat completion: ".to_owned();
                let digits = crate::strutil::u64_to_string(*status as u64);
                out.append(digits.as_str());
                out.append(" - ");
                out.append(body.as_str());
                out
            },
            AgentError::DecodeError { detail } => {
                let mut out = "Failed to decode response: ".to_owned();
                out.append(detail.as_str());
                out
            },
            AgentError::NoChoices => "No choices in response".to_owned(),
            AgentError::NoFinalResponse => "No response from LLM".to_owned(),
        }
    }
}

/// Why one tool call failed; the orchestrator converts these into
/// `tool`-role error messages instead of aborting the turn.
#[derive(Debug, Clone)]
pub enum ToolError {
    /// A required string argument was absent from the call's arguments.
    MissingArgument { name: String },
    /// The model named a tool that is not offered.
    UnknownTool { name: String },
    /// The command string held no word after splitting.
    EmptyCommand,
    /// The named program could not be started.
    SpawnError { detail: String },
}

impl ToolError {
    /// The diagnostic text of the error.
    pub open spec fn message_spec(self) -> Seq<char> {
        match self {
            ToolError::MissingArgument { name } => "Missing '"@ + name@ + "' argument"@,
            ToolError::UnknownTool { name } => "Unknown tool: "@ + name@,
            ToolError::EmptyCommand => "Empty command"@,
            ToolError::SpawnError { detail } => "Failed to execute command: "@ + detail@,
        }
    }

    /// Render the diagnostic text of the error.
    pub fn message(&self) -> (r: String)
        ensures
            r@ == self.message_spec(),
    {
        match self {
            ToolError::MissingArgument { name } => {
                let mut out = "Missing '".to_owned();
                out.append(name.as_str());
                out.append("' argument");
                out
            },
            ToolError::UnknownTool { name } => {
                let mut out = "Unknown tool: ".to_owned();
                out.append(name.as_str());
                out
            },
            ToolError::EmptyCommand => "Empty command".to_owned(),
            ToolError::SpawnError { detail } => {
                let mut out = "Failed to execute command: ".to_owned();
                out.append(detail.as_str());
                out
            },
        }
    }
}

} // verus!
