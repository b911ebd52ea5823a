//! Sampling from an LLM through the client.
use vstd::prelude::*;

use crate::json::{JsonNumber, JsonValue};
use crate::map::StrMap;
use crate::schema::content::{AudioContent, ImageContent, Role, TextContent};

verus! {

/// Parameters of a sampling request.
#[derive(Debug)]
pub struct CreateMessageParams {
    pub messages: Vec<SamplingMessage>,
    /// The server's preferences for which model to select.
    pub model_preferences: Option<ModelPreferences>,
    /// An optional system prompt.
    pub system_prompt: Option<String>,
    /// A request to include context from MCP servers.
    pub include_context: Option<IncludeContext>,
    /// The sampling temperature, as a JSON number.
    pub temperature: Option<JsonNumber>,
    /// The maximum number of tokens to sample.
    pub max_tokens: i64,
    pub stop_sequences: Option<Vec<String>>,
    /// Provider-specific metadata.
    pub metadata: Option<JsonValue>,
}

/// Which servers' context to include in a sampling request.
#[derive(Debug, Clone, Copy, PartialEq, Eq, Structural)]
pub enum IncludeContext {
    NoContext,
    ThisServer,
    AllServers,
}

/// The client's response to a sampling request.
#[derive(Debug)]
pub struct CreateMessageResult {
    pub role: Role,
    pub content: SamplingContent,
    /// The name of the model that generated the message.
    pub model: String,
    /// The reason why sampling stopped, if known.
    pub stop_reason: Option<StopReason>,
    /// Reserved metadata.
    pub _meta: Option<StrMap<JsonValue>>,
}

/// Why sampling stopped.
#[derive(Debug, Clone)]
pub enum StopReason {
    EndTurn,
    StopSequence,
    MaxTokens,
    Other(String),
}

/// A message issued to or received from an LLM API.
#[derive(Debug)]
pub struct SamplingMessage {
    pub role: Role,
    pub content: SamplingContent,
}

/// The content of a sampling message.
#[derive(Debug)]
pub enum SamplingContent {
    Text(TextContent),
    Image(ImageContent),
    Audio(AudioContent),
}

/// The server's preferences for model selection; priorities are JSON numbers
/// between 0 and 1.
#[derive(Debug, Clone)]
pub struct ModelPreferences {
    /// Hints to use for model selection, in order.
    pub hints: Option<Vec<ModelHint>>,
    pub cost_priority: Option<JsonNumber>,
    pub speed_priority: Option<JsonNumber>,
    pub intelligence_priority: Option<JsonNumber>,
}

/// A hint for model selection.
#[derive(Debug, Clone)]
pub struct ModelHint {
    /// A hint for a model name.
    pub name: Option<String>,
}

} // verus!
