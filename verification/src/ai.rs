//! The assistant-context data shapes: what the engine gathers for an external text-generation collaborator, and the request and response shells around it.

use vstd::prelude::*;

verus! {

#[derive(Debug, Clone, PartialEq)]
pub struct AiContext {
    pub working_dir: Option<String>,
    pub prompt: Option<String>,
    pub recent_commands: Vec<String>,
    pub tail_output: Vec<String>,
}

#[derive(Debug, Clone, PartialEq)]
pub struct AiRequest {
    pub task: String,
    pub user_input: String,
    pub context: AiContext,
}

#[derive(Debug, Clone, PartialEq)]
pub struct AiResponse {
    pub text: String,
}

#[derive(Debug, Clone, PartialEq)]
pub struct AiClient {
    pub provider: AiProvider,
}

#[derive(Debug, Clone, PartialEq)]
pub enum AiProvider {
    Mock,
    OpenAICompatible { base_url: String, api_key: String, model: String },
}

} // verus!
