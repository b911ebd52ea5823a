//! The server's answer to the initialize request.
use vstd::prelude::*;

use crate::json::JsonValue;
use crate::map::{insert_into, opt_get, opt_wf, StrMap};
use crate::schema::capabilities::{
    is_empty_object, PromptsCapability, ResourcesCapability, ServerCapabilities, ToolsCapability,
};
use crate::schema::implementation::Implementation;
use crate::schema::jsonrpc::LATEST_PROTOCOL_VERSION;

verus! {

/// The server version reported when none is set.
pub const DEFAULT_SERVER_VERSION: &'static str = "0.0.1";

/// After receiving an initialize request from the client, the server sends this response.
#[derive(Debug)]
pub struct InitializeResult {
    /// The protocol version that the server wants to use.
    pub protocol_version: String,
    pub capabilities: ServerCapabilities,
    pub server_info: Implementation,
    /// Instructions describing how to use the server and its features.
    pub instructions: Option<String>,
    /// Reserved metadata.
    pub _meta: Option<StrMap<JsonValue>>,
}

impl InitializeResult {
    /// Creates a result for the server `name` with the latest protocol
    /// version, server version "0.0.1" and no capabilities.
    pub fn new(name: &str) -> (r: InitializeResult)
        ensures
            r.protocol_version@ == LATEST_PROTOCOL_VERSION@,
            r.server_info.name@ == name@,
            r.server_info.version@ == DEFAULT_SERVER_VERSION@,
            r.server_info.title is None,
            r.capabilities.experimental is None && r.capabilities.logging is None
                && r.capabilities.completions is None && r.capabilities.prompts is None
                && r.capabilities.resources is None && r.capabilities.tools is None,
            r.instructions is None,
            r._meta is None,
    {
        InitializeResult {
            protocol_version: LATEST_PROTOCOL_VERSION.to_string(),
            capabilities: ServerCapabilities::default(),
            server_info: Implementation::new(name, DEFAULT_SERVER_VERSION),
            instructions: None,
            _meta: None,
        }
    }

    /// Sets the server's own version (not the protocol version).
    pub fn with_version(self, version: &str) -> (r: InitializeResult)
        ensures
            r.server_info.version@ == version@,
            r.server_info.name == self.server_info.name,
            r.server_info.title == self.server_info.title,
            r.protocol_version == self.protocol_version,
            r.capabilities == self.capabilities,
            r.instructions == self.instructions,
            r._meta == self._meta,
    {
        let info = Implementation { version: version.to_string(), ..self.server_info };
        InitializeResult { server_info: info, ..self }
    }

    /// Sets the protocol version.
    pub fn with_mcp_version(self, version: &str) -> (r: InitializeResult)
        ensures
            r.protocol_version@ == version@,
            r.server_info == self.server_info,
            r.capabilities == self.capabilities,
            r.instructions == self.instructions,
            r._meta == self._meta,
    {
        InitializeResult { protocol_version: version.to_string(), ..self }
    }

    /// Sets the instructions.
    pub fn with_instructions(self, instructions: &str) -> (r: InitializeResult)
        ensures
            r.instructions matches Some(i) && i@ == instructions@,
            r.protocol_version == self.protocol_version,
            r.server_info == self.server_info,
            r.capabilities == self.capabilities,
            r._meta == self._meta,
    {
        InitializeResult { instructions: Some(instructions.to_string()), ..self }
    }

    /// Replaces the server capabilities.
    pub fn with_capabilities(self, capabilities: ServerCapabilities) -> (r: InitializeResult)
        ensures
            r.capabilities == capabilities,
            r.protocol_version == self.protocol_version,
            r.server_info == self.server_info,
            r.instructions == self.instructions,
            r._meta == self._meta,
    {
        InitializeResult { capabilities, ..self }
    }

    /// Enables the logging capability.
    pub fn with_logging(self) -> (r: InitializeResult)
        ensures
            r.capabilities.logging matches Some(v) && is_empty_object(v),
            r.capabilities.experimental == self.capabilities.experimental,
            r.capabilities.completions == self.capabilities.completions,
            r.capabilities.prompts == self.capabilities.prompts,
            r.capabilities.resources == self.capabilities.resources,
            r.capabilities.tools == self.capabilities.tools,
            r.protocol_version == self.protocol_version,
            r.server_info == self.server_info,
            r.instructions == self.instructions,
            r._meta == self._meta,
    {
        let caps = ServerCapabilities { logging: Some(JsonValue::empty_object()), ..self.capabilities };
        InitializeResult { capabilities: caps, ..self }
    }

    /// Enables the prompts capability.
    pub fn with_prompts(self, list_changed: bool) -> (r: InitializeResult)
        ensures
            r.capabilities.prompts == Some(PromptsCapability { list_changed: Some(list_changed) }),
            r.capabilities.experimental == self.capabilities.experimental,
            r.capabilities.logging == self.capabilities.logging,
            r.capabilities.completions == self.capabilities.completions,
            r.capabilities.resources == self.capabilities.resources,
            r.capabilities.tools == self.capabilities.tools,
            r.protocol_version == self.protocol_version,
            r.server_info == self.server_info,
            r.instructions == self.instructions,
            r._meta == self._meta,
    {
        let caps = ServerCapabilities {
            prompts: Some(PromptsCapability { list_changed: Some(list_changed) }),
            ..self.capabilities
        };
        InitializeResult { capabilities: caps, ..self }
    }

    /// Enables the resources capability.
    pub fn with_resources(self, subscribe: bool, list_changed: bool) -> (r: InitializeResult)
        ensures
            r.capabilities.resources == Some(
                ResourcesCapability { subscribe: Some(subscribe), list_changed: Some(list_changed) },
            ),
            r.capabilities.experimental == self.capabilities.experimental,
            r.capabilities.logging == self.capabilities.logging,
            r.capabilities.completions == self.capabilities.completions,
            r.capabilities.prompts == self.capabilities.prompts,
            r.capabilities.tools == self.capabilities.tools,
            r.protocol_version == self.protocol_version,
            r.server_info == self.server_info,
            r.instructions == self.instructions,
            r._meta == self._meta,
    {
        let caps = ServerCapabilities {
            resources: Some(
                ResourcesCapability { subscribe: Some(subscribe), list_changed: Some(list_changed) },
            ),
            ..self.capabilities
        };
        InitializeResult { capabilities: caps, ..self }
    }

    /// Enables the tools capability.
    pub fn with_tools(self, list_changed: bool) -> (r: InitializeResult)
        ensures
            r.capabilities.tools == Some(ToolsCapability { list_changed: Some(list_changed) }),
            r.capabilities.experimental == self.capabilities.experimental,
            r.capabilities.logging == self.capabilities.logging,
            r.capabilities.completions == self.capabilities.completions,
            r.capabilities.prompts == self.capabilities.prompts,
            r.capabilities.resources == self.capabilities.resources,
            r.protocol_version == self.protocol_version,
            r.server_info == self.server_info,
            r.instructions == self.instructions,
            r._meta == self._meta,
    {
        let caps = ServerCapabilities {
            tools: Some(ToolsCapability { list_changed: Some(list_changed) }),
            ..self.capabilities
        };
        InitializeResult { capabilities: caps, ..self }
    }

    /// Enables the completions capability.
    pub fn with_completions(self) -> (r: InitializeResult)
        ensures
            r.capabilities.completions matches Some(v) && is_empty_object(v),
            r.capabilities.experimental == self.capabilities.experimental,
            r.capabilities.logging == self.capabilities.logging,
            r.capabilities.prompts == self.capabilities.prompts,
            r.capabilities.resources == self.capabilities.resources,
            r.capabilities.tools == self.capabilities.tools,
            r.protocol_version == self.protocol_version,
            r.server_info == self.server_info,
            r.instructions == self.instructions,
            r._meta == self._meta,
    {
        let caps = ServerCapabilities {
            completions: Some(JsonValue::empty_object()),
            ..self.capabilities
        };
        InitializeResult { capabilities: caps, ..self }
    }

    /// Sets the metadata.
    pub fn with_meta(self, meta: StrMap<JsonValue>) -> (r: InitializeResult)
        ensures
            r._meta == Some(meta),
            r.protocol_version == self.protocol_version,
            r.server_info == self.server_info,
            r.capabilities == self.capabilities,
            r.instructions == self.instructions,
    {
        InitializeResult { _meta: Some(meta), ..self }
    }

    /// Adds a single metadata entry.
    pub fn with_meta_entry(self, key: &str, value: JsonValue) -> (r: InitializeResult)
        requires
            opt_wf(self._meta),
        ensures
            r._meta matches Some(m) && m.wf() && m.spec_get(key@) == Some(value),
            forall|k: Seq<char>| k != key@ ==> #[trigger] opt_get(r._meta, k) == opt_get(self._meta, k),
            r.protocol_version == self.protocol_version,
            r.server_info == self.server_info,
            r.capabilities == self.capabilities,
            r.instructions == self.instructions,
    {
        let m = insert_into(self._meta, key, value);
        InitializeResult { _meta: Some(m), ..self }
    }
}

} // verus!
