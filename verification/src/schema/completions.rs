//! Argument autocompletion.
use vstd::prelude::*;

use crate::json::JsonValue;
use crate::map::StrMap;

verus! {

/// The argument a completion is asked for.
#[derive(Debug, Clone)]
pub struct ArgumentInfo {
    /// The name of the argument.
    pub name: String,
    /// The value of the argument to use for completion matching.
    pub value: String,
}

/// What a completion refers to.
#[derive(Debug, Clone)]
pub enum Reference {
    Resource(ResourceReference),
    Prompt(PromptReference),
}

/// A reference to a resource or resource template definition.
#[derive(Debug, Clone)]
pub struct ResourceReference {
    /// The URI or URI template of the resource.
    pub uri: String,
}

/// Identifies a prompt.
#[derive(Debug, Clone)]
pub struct PromptReference {
    /// The programmatic name of the prompt.
    pub name: String,
    /// A human-readable title.
    pub title: Option<String>,
}

/// The server's response to a completion request.
#[derive(Debug)]
pub struct CompleteResult {
    pub completion: CompletionInfo,
    /// Reserved metadata.
    pub _meta: Option<StrMap<JsonValue>>,
}

/// Completion values.
#[derive(Debug, Clone)]
pub struct CompletionInfo {
    /// An array of completion values. Must not exceed 100 items.
    pub values: Vec<String>,
    /// The total number of completion options available.
    pub total: Option<i64>,
    /// Whether there are additional completion options beyond those provided.
    pub has_more: Option<bool>,
}

} // verus!
