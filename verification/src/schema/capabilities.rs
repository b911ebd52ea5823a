//! The optional features that clients and servers announce.
use vstd::prelude::*;

use crate::json::JsonValue;
use crate::map::StrMap;

verus! {

/// Capabilities a client may support.
#[derive(Debug)]
pub struct ClientCapabilities {
    /// Experimental, non-standard capabilities that the client supports.
    pub experimental: Option<StrMap<JsonValue>>,
    /// Present if the client supports listing roots.
    pub roots: Option<RootsCapability>,
    /// Present if the client supports sampling from an LLM.
    pub sampling: Option<JsonValue>,
    /// Present if the client supports elicitation requests.
    pub elicitation: Option<JsonValue>,
}

impl Default for ClientCapabilities {
    fn default() -> (r: ClientCapabilities)
        ensures
            r.experimental is None,
            r.roots is None,
            r.sampling is None,
            r.elicitation is None,
    {
        ClientCapabilities { experimental: None, roots: None, sampling: None, elicitation: None }
    }
}

/// Whether a value is the empty JSON object.
pub open spec fn is_empty_object(v: JsonValue) -> bool {
    v matches JsonValue::Object(m) && m.wf() && m.entries().len() == 0
}

impl ClientCapabilities {
    /// Creates empty client capabilities.
    pub fn new() -> (r: ClientCapabilities)
        ensures
            r.experimental is None,
            r.roots is None,
            r.sampling is None,
            r.elicitation is None,
    {
        ClientCapabilities::default()
    }

    /// Adds an experimental capability under `key`, replacing one of the same key.
    pub fn with_experimental_capability(self, key: &str, value: JsonValue) -> (r: ClientCapabilities)
        requires
            self.experimental matches Some(m) ==> m.wf(),
        ensures
            r.experimental matches Some(m) && m.wf() && m.spec_get(key@) == Some(value),
            forall|k: Seq<char>|
                k != key@ ==> #[trigger] r.experimental.unwrap().spec_get(k) == match self.experimental {
                    Some(m) => m.spec_get(k),
                    None => None,
                },
            r.roots == self.roots,
            r.sampling == self.sampling,
            r.elicitation == self.elicitation,
    {
        let mut m = match self.experimental {
            Some(m) => m,
            None => StrMap::new(),
        };
        m.insert(key.to_string(), value);
        ClientCapabilities { experimental: Some(m), ..self }
    }

    /// Enables the roots capability; `list_changed` says whether the client
    /// notifies changes to the roots list.
    pub fn with_roots_capability(self, list_changed: bool) -> (r: ClientCapabilities)
        ensures
            r.roots == Some(RootsCapability { list_changed: Some(list_changed) }),
            r.experimental == self.experimental,
            r.sampling == self.sampling,
            r.elicitation == self.elicitation,
    {
        ClientCapabilities { roots: Some(RootsCapability { list_changed: Some(list_changed) }), ..self }
    }

    /// Enables the sampling capability.
    pub fn with_sampling(self) -> (r: ClientCapabilities)
        ensures
            r.sampling matches Some(v) && is_empty_object(v),
            r.experimental == self.experimental,
            r.roots == self.roots,
            r.elicitation == self.elicitation,
    {
        ClientCapabilities { sampling: Some(JsonValue::empty_object()), ..self }
    }

    /// Enables the elicitation capability.
    pub fn with_elicitation(self) -> (r: ClientCapabilities)
        ensures
            r.elicitation matches Some(v) && is_empty_object(v),
            r.experimental == self.experimental,
            r.roots == self.roots,
            r.sampling == self.sampling,
    {
        ClientCapabilities { elicitation: Some(JsonValue::empty_object()), ..self }
    }
}

/// The client's roots capability.
#[derive(Debug, Clone, Copy, PartialEq, Eq, Structural)]
pub struct RootsCapability {
    /// Whether the client supports notifications for changes to the roots list.
    pub list_changed: Option<bool>,
}

/// Capabilities that a server may support.
#[derive(Debug)]
pub struct ServerCapabilities {
    /// Experimental, non-standard capabilities that the server supports.
    pub experimental: Option<StrMap<JsonValue>>,
    /// Present if the server supports sending log messages to the client.
    pub logging: Option<JsonValue>,
    /// Present if the server supports argument autocompletion suggestions.
    pub completions: Option<JsonValue>,
    /// Present if the server offers any prompt templates.
    pub prompts: Option<PromptsCapability>,
    /// Present if the server offers any resources to read.
    pub resources: Option<ResourcesCapability>,
    /// Present if the server offers any tools to call.
    pub tools: Option<ToolsCapability>,
}

impl Default for ServerCapabilities {
    fn default() -> (r: ServerCapabilities)
        ensures
            r.experimental is None,
            r.logging is None,
            r.completions is None,
            r.prompts is None,
            r.resources is None,
            r.tools is None,
    {
        ServerCapabilities {
            experimental: None,
            logging: None,
            completions: None,
            prompts: None,
            resources: None,
            tools: None,
        }
    }
}

impl ServerCapabilities {
    /// Sets the experimental capabilities.
    pub fn with_experimental(self, experimental: StrMap<JsonValue>) -> (r: ServerCapabilities)
        ensures
            r.experimental == Some(experimental),
            r.logging == self.logging,
            r.completions == self.completions,
            r.prompts == self.prompts,
            r.resources == self.resources,
            r.tools == self.tools,
    {
        ServerCapabilities { experimental: Some(experimental), ..self }
    }

    /// Enables the logging capability.
    pub fn with_logging(self) -> (r: ServerCapabilities)
        ensures
            r.logging matches Some(v) && is_empty_object(v),
            r.experimental == self.experimental,
            r.completions == self.completions,
            r.prompts == self.prompts,
            r.resources == self.resources,
            r.tools == self.tools,
    {
        ServerCapabilities { logging: Some(JsonValue::empty_object()), ..self }
    }

    /// Enables the completions capability.
    pub fn with_completions(self) -> (r: ServerCapabilities)
        ensures
            r.completions matches Some(v) && is_empty_object(v),
            r.experimental == self.experimental,
            r.logging == self.logging,
            r.prompts == self.prompts,
            r.resources == self.resources,
            r.tools == self.tools,
    {
        ServerCapabilities { completions: Some(JsonValue::empty_object()), ..self }
    }

    /// Enables the prompts capability.
    pub fn with_prompts(self, list_changed: Option<bool>) -> (r: ServerCapabilities)
        ensures
            r.prompts == Some(PromptsCapability { list_changed }),
            r.experimental == self.experimental,
            r.logging == self.logging,
            r.completions == self.completions,
            r.resources == self.resources,
            r.tools == self.tools,
    {
        ServerCapabilities { prompts: Some(PromptsCapability { list_changed }), ..self }
    }

    /// Enables the resources capability.
    pub fn with_resources(self, subscribe: Option<bool>, list_changed: Option<bool>) -> (r:
        ServerCapabilities)
        ensures
            r.resources == Some(ResourcesCapability { subscribe, list_changed }),
            r.experimental == self.experimental,
            r.logging == self.logging,
            r.completions == self.completions,
            r.prompts == self.prompts,
            r.tools == self.tools,
    {
        ServerCapabilities { resources: Some(ResourcesCapability { subscribe, list_changed }), ..self }
    }

    /// Enables the tools capability.
    pub fn with_tools(self, list_changed: Option<bool>) -> (r: ServerCapabilities)
        ensures
            r.tools == Some(ToolsCapability { list_changed }),
            r.experimental == self.experimental,
            r.logging == self.logging,
            r.completions == self.completions,
            r.prompts == self.prompts,
            r.resources == self.resources,
    {
        ServerCapabilities { tools: Some(ToolsCapability { list_changed }), ..self }
    }
}

/// The server's prompts capability.
#[derive(Debug, Clone, Copy, PartialEq, Eq, Structural)]
pub struct PromptsCapability {
    /// Whether the server notifies changes to the prompt list.
    pub list_changed: Option<bool>,
}

/// The server's resources capability.
#[derive(Debug, Clone, Copy, PartialEq, Eq, Structural)]
pub struct ResourcesCapability {
    /// Whether the server supports subscribing to resource updates.
    pub subscribe: Option<bool>,
    /// Whether the server notifies changes to the resource list.
    pub list_changed: Option<bool>,
}

/// The server's tools capability.
#[derive(Debug, Clone, Copy, PartialEq, Eq, Structural)]
pub struct ToolsCapability {
    /// Whether the server notifies changes to the tool list.
    pub list_changed: Option<bool>,
}

} // verus!
