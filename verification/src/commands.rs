use vstd::prelude::*;
use vstd::string::StringExecFns;

use crate::tabs::clone_opt_string;

verus! {

/// Marker for the command boundary's shared browser state. The boundary
/// itself holds one manager instance and dispatches into it; nothing of
/// that dispatch lives here.
#[derive(Debug, PartialEq, Eq)]
pub struct BrowserState;

/// The greeting the shell answers a hello with.
#[derive(Debug, PartialEq, Eq)]
pub struct GreetingResponse {
    pub message: String,
}

impl Clone for GreetingResponse {
    fn clone(&self) -> (r: Self)
        ensures
            r == *self,
    {
        GreetingResponse { message: self.message.clone() }
    }
}

/// Greet `name` with the shell's fixed welcome line.
pub fn greet(name: &str) -> (r: GreetingResponse)
    ensures
        r.message@ == "Welcome to Aether, "@ + name@ + ". Browse lightly. Think deeply."@,
{
    GreetingResponse {
        message: "Welcome to Aether, ".to_owned().concat(name).concat(
            ". Browse lightly. Think deeply.",
        ),
    }
}

/// A request to send one message to the agent within some conversation.
#[derive(Debug, PartialEq, Eq)]
pub struct AgentMessageRequest {
    pub conversation_id: Option<String>,
    pub tab_id: Option<String>,
    pub message: String,
    pub provider: String,
    pub model: String,
}

impl Clone for AgentMessageRequest {
    fn clone(&self) -> (r: Self)
        ensures
            r == *self,
    {
        AgentMessageRequest {
            conversation_id: clone_opt_string(&self.conversation_id),
            tab_id: clone_opt_string(&self.tab_id),
            message: self.message.clone(),
            provider: self.provider.clone(),
            model: self.model.clone(),
        }
    }
}

/// The agent's answer, under the conversation it belongs to.
#[derive(Debug, PartialEq, Eq)]
pub struct AgentMessageResponse {
    pub conversation_id: String,
    pub response: String,
}

impl Clone for AgentMessageResponse {
    fn clone(&self) -> (r: Self)
        ensures
            r == *self,
    {
        AgentMessageResponse {
            conversation_id: self.conversation_id.clone(),
            response: self.response.clone(),
        }
    }
}

/// The placeholder reply the agent gives while no provider is wired up: it
/// echoes the message, provider and model back.
pub fn mock_agent_reply(message: &str, provider: &str, model: &str) -> (r: String)
    ensures
        r@ == "I received your message: '"@ + message@ + "' (Provider: "@ + provider@ + ", Model: "@
            + model@ + "). Full AI integration coming soon!"@,
{
    "I received your message: '".to_owned().concat(message).concat("' (Provider: ").concat(
        provider,
    ).concat(", Model: ").concat(model).concat("). Full AI integration coming soon!")
}

} // verus!
