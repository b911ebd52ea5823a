//! Requests and notifications exchanged between client and server.
use vstd::prelude::*;

use crate::arguments::Arguments;
use crate::json::{JsonNumber, JsonValue};
use crate::map::{insert_into, opt_get, opt_wf, StrMap};
use crate::schema::capabilities::ClientCapabilities;
use crate::schema::completions::{ArgumentInfo, Reference};
use crate::schema::implementation::Implementation;
use crate::schema::jsonrpc::{Cursor, ProgressToken, RequestId, RequestMeta};
use crate::schema::logging::LoggingLevel;
use crate::schema::sampling::CreateMessageParams;
use crate::text::{is_some_text, same_text};

verus! {

/// Requests sent from the client to the server.
#[derive(Debug)]
pub enum ClientRequest {
    Ping,
    Initialize {
        protocol_version: String,
        capabilities: ClientCapabilities,
        client_info: Implementation,
    },
    Complete { reference: Reference, argument: ArgumentInfo, context: Option<CompleteContext> },
    SetLevel { level: LoggingLevel },
    GetPrompt { name: String, arguments: Option<Arguments> },
    ListPrompts { cursor: Option<Cursor> },
    ListResources { cursor: Option<Cursor> },
    ListResourceTemplates { cursor: Option<Cursor> },
    ReadResource { uri: String },
    Subscribe { uri: String },
    Unsubscribe { uri: String },
    CallTool { name: String, arguments: Option<Arguments> },
    ListTools { cursor: Option<Cursor> },
}

/// The method name of a client request.
pub open spec fn client_request_method(r: ClientRequest) -> Seq<char> {
    match r {
        ClientRequest::Ping => "ping"@,
        ClientRequest::Initialize { .. } => "initialize"@,
        ClientRequest::Complete { .. } => "completion/complete"@,
        ClientRequest::SetLevel { .. } => "logging/setLevel"@,
        ClientRequest::GetPrompt { .. } => "prompts/get"@,
        ClientRequest::ListPrompts { .. } => "prompts/list"@,
        ClientRequest::ListResources { .. } => "resources/list"@,
        ClientRequest::ListResourceTemplates { .. } => "resources/templates/list"@,
        ClientRequest::ReadResource { .. } => "resources/read"@,
        ClientRequest::Subscribe { .. } => "resources/subscribe"@,
        ClientRequest::Unsubscribe { .. } => "resources/unsubscribe"@,
        ClientRequest::CallTool { .. } => "tools/call"@,
        ClientRequest::ListTools { .. } => "tools/list"@,
    }
}

/// Whether `name` is the method name of some client request.
pub open spec fn is_client_method(name: Seq<char>) -> bool {
    name == "ping"@ || name == "initialize"@ || name == "completion/complete"@ || name
        == "logging/setLevel"@ || name == "prompts/get"@ || name == "prompts/list"@ || name
        == "resources/list"@ || name == "resources/templates/list"@ || name == "resources/read"@
        || name == "resources/subscribe"@ || name == "resources/unsubscribe"@ || name
        == "tools/call"@ || name == "tools/list"@
}

impl ClientRequest {
    /// The method name for this request.
    pub fn method(&self) -> (m: &'static str)
        ensures
            m@ == client_request_method(*self),
    {
        match self {
            ClientRequest::Ping => "ping",
            ClientRequest::Initialize { .. } => "initialize",
            ClientRequest::Complete { .. } => "completion/complete",
            ClientRequest::SetLevel { .. } => "logging/setLevel",
            ClientRequest::GetPrompt { .. } => "prompts/get",
            ClientRequest::ListPrompts { .. } => "prompts/list",
            ClientRequest::ListResources { .. } => "resources/list",
            ClientRequest::ListResourceTemplates { .. } => "resources/templates/list",
            ClientRequest::ReadResource { .. } => "resources/read",
            ClientRequest::Subscribe { .. } => "resources/subscribe",
            ClientRequest::Unsubscribe { .. } => "resources/unsubscribe",
            ClientRequest::CallTool { .. } => "tools/call",
            ClientRequest::ListTools { .. } => "tools/list",
        }
    }
}

/// Whether `name` is the method name of some client request.
pub fn is_client_request_method(name: &str) -> (r: bool)
    ensures
        r == is_client_method(name@),
{
    same_text(name, "ping") || same_text(name, "initialize") || same_text(name, "completion/complete")
        || same_text(name, "logging/setLevel") || same_text(name, "prompts/get") || same_text(
        name,
        "prompts/list",
    ) || same_text(name, "resources/list") || same_text(name, "resources/templates/list") || same_text(
        name,
        "resources/read",
    ) || same_text(name, "resources/subscribe") || same_text(name, "resources/unsubscribe")
        || same_text(name, "tools/call") || same_text(name, "tools/list")
}

/// Law: every client request carries one of the client method names, so the
/// server's method table knows the method of every request a client can make.
pub proof fn law_client_request_methods_known(r: ClientRequest)
    ensures
        is_client_method(client_request_method(r)),
{
}

/// Notifications sent from the client to the server.
#[derive(Debug)]
pub enum ClientNotification {
    Cancelled { request_id: RequestId, reason: Option<String> },
    Progress {
        progress_token: ProgressToken,
        progress: JsonNumber,
        total: Option<JsonNumber>,
        message: Option<String>,
    },
    Initialized,
    RootsListChanged,
}

/// The method name of a client notification.
pub open spec fn client_notification_method(n: ClientNotification) -> Seq<char> {
    match n {
        ClientNotification::Cancelled { .. } => "notifications/cancelled"@,
        ClientNotification::Progress { .. } => "notifications/progress"@,
        ClientNotification::Initialized => "notifications/initialized"@,
        ClientNotification::RootsListChanged => "notifications/roots/list_changed"@,
    }
}

impl ClientNotification {
    /// The method name for this notification.
    pub fn method(&self) -> (m: &'static str)
        ensures
            m@ == client_notification_method(*self),
    {
        match self {
            ClientNotification::Cancelled { .. } => "notifications/cancelled",
            ClientNotification::Progress { .. } => "notifications/progress",
            ClientNotification::Initialized => "notifications/initialized",
            ClientNotification::RootsListChanged => "notifications/roots/list_changed",
        }
    }
}

/// Requests sent from the server to the client.
#[derive(Debug)]
pub enum ServerRequest {
    Ping,
    CreateMessage(Box<CreateMessageParams>),
    ListRoots,
    Elicit(ElicitParams),
}

/// The method name of a server request.
pub open spec fn server_request_method(r: ServerRequest) -> Seq<char> {
    match r {
        ServerRequest::Ping => "ping"@,
        ServerRequest::CreateMessage(_) => "sampling/createMessage"@,
        ServerRequest::ListRoots => "roots/list"@,
        ServerRequest::Elicit(_) => "elicitation/create"@,
    }
}

impl ServerRequest {
    /// The method name for this request.
    pub fn method(&self) -> (m: &'static str)
        ensures
            m@ == server_request_method(*self),
    {
        match self {
            ServerRequest::Ping => "ping",
            ServerRequest::CreateMessage(_) => "sampling/createMessage",
            ServerRequest::ListRoots => "roots/list",
            ServerRequest::Elicit(_) => "elicitation/create",
        }
    }
}

/// Notifications sent from the server to the client.
#[derive(Debug)]
pub enum ServerNotification {
    Cancelled { request_id: RequestId, reason: Option<String> },
    Progress {
        progress_token: ProgressToken,
        progress: JsonNumber,
        total: Option<JsonNumber>,
        message: Option<String>,
    },
    LoggingMessage { level: LoggingLevel, logger: Option<String>, data: JsonValue },
    ResourceUpdated { uri: String },
    ResourceListChanged,
    ToolListChanged,
    PromptListChanged,
}

/// The method name of a server notification.
pub open spec fn server_notification_method(n: ServerNotification) -> Seq<char> {
    match n {
        ServerNotification::Cancelled { .. } => "notifications/cancelled"@,
        ServerNotification::Progress { .. } => "notifications/progress"@,
        ServerNotification::LoggingMessage { .. } => "notifications/message"@,
        ServerNotification::ResourceUpdated { .. } => "notifications/resources/updated"@,
        ServerNotification::ResourceListChanged => "notifications/resources/list_changed"@,
        ServerNotification::ToolListChanged => "notifications/tools/list_changed"@,
        ServerNotification::PromptListChanged => "notifications/prompts/list_changed"@,
    }
}

impl ServerNotification {
    /// The method name for this notification.
    pub fn method(&self) -> (m: &'static str)
        ensures
            m@ == server_notification_method(*self),
    {
        match self {
            ServerNotification::Cancelled { .. } => "notifications/cancelled",
            ServerNotification::Progress { .. } => "notifications/progress",
            ServerNotification::LoggingMessage { .. } => "notifications/message",
            ServerNotification::ResourceUpdated { .. } => "notifications/resources/updated",
            ServerNotification::ResourceListChanged => "notifications/resources/list_changed",
            ServerNotification::ToolListChanged => "notifications/tools/list_changed",
            ServerNotification::PromptListChanged => "notifications/prompts/list_changed",
        }
    }
}

/// This notification can be sent by either side to cancel a previous request.
#[derive(Debug)]
pub struct CancelledNotification {
    pub method: String,
    pub params: CancelledParams,
}

/// Parameters of a cancellation.
#[derive(Debug)]
pub struct CancelledParams {
    /// The ID of the request to cancel.
    pub request_id: RequestId,
    /// An optional string describing the reason for the cancellation.
    pub reason: Option<String>,
}

/// An out-of-band progress update for a long-running request.
#[derive(Debug)]
pub struct ProgressNotification {
    pub method: String,
    pub params: ProgressParams,
}

/// Parameters of a progress update.
#[derive(Debug)]
pub struct ProgressParams {
    pub progress_token: ProgressToken,
    pub progress: JsonNumber,
    pub total: Option<JsonNumber>,
    pub message: Option<String>,
}

/// Base interface for paginated requests.
#[derive(Debug)]
pub struct PaginatedRequest {
    pub method: String,
    pub params: Option<PaginatedParams>,
}

/// Parameters of a paginated request.
#[derive(Debug)]
pub struct PaginatedParams {
    /// An opaque token representing the current pagination position.
    pub cursor: Option<Cursor>,
    pub _meta: Option<RequestMeta>,
}

/// Base interface for paginated results.
#[derive(Debug)]
pub struct PaginatedResult {
    pub next_cursor: Option<Cursor>,
    pub _meta: Option<StrMap<JsonValue>>,
}

impl PaginatedResult {
    /// Sets the metadata.
    pub fn with_meta(self, meta: StrMap<JsonValue>) -> (r: PaginatedResult)
        ensures
            r._meta == Some(meta),
            r.next_cursor == self.next_cursor,
    {
        PaginatedResult { _meta: Some(meta), ..self }
    }

    /// Adds a single metadata entry.
    pub fn with_meta_entry(self, key: &str, value: JsonValue) -> (r: PaginatedResult)
        requires
            opt_wf(self._meta),
        ensures
            r._meta matches Some(m) && m.wf() && m.spec_get(key@) == Some(value),
            forall|k: Seq<char>| k != key@ ==> #[trigger] opt_get(r._meta, k) == opt_get(self._meta, k),
            r.next_cursor == self.next_cursor,
    {
        let m = insert_into(self._meta, key, value);
        PaginatedResult { _meta: Some(m), ..self }
    }
}

/// Sent from the client to request a list of resources.
#[derive(Debug)]
pub struct ListResourcesRequest {
    pub method: String,
    pub params: Option<PaginatedParams>,
}

/// Sent from the client to request a list of resource templates.
#[derive(Debug)]
pub struct ListResourceTemplatesRequest {
    pub method: String,
    pub params: Option<PaginatedParams>,
}

/// Sent from the client to read a specific resource URI.
#[derive(Debug)]
pub struct ReadResourceRequest {
    pub method: String,
    pub params: ReadResourceParams,
}

/// Parameters of a resource read.
#[derive(Debug)]
pub struct ReadResourceParams {
    pub uri: String,
    pub _meta: Option<RequestMeta>,
}

/// Sent from the client to request resources/updated notifications.
#[derive(Debug)]
pub struct SubscribeRequest {
    pub method: String,
    pub params: SubscribeParams,
}

/// Parameters of a subscription.
#[derive(Debug)]
pub struct SubscribeParams {
    pub uri: String,
    pub _meta: Option<RequestMeta>,
}

/// Sent from the client to cancel resources/updated notifications.
#[derive(Debug)]
pub struct UnsubscribeRequest {
    pub method: String,
    pub params: UnsubscribeParams,
}

/// Parameters of an unsubscription.
#[derive(Debug)]
pub struct UnsubscribeParams {
    pub uri: String,
    pub _meta: Option<RequestMeta>,
}

/// Sent from the client to request a list of prompts.
#[derive(Debug)]
pub struct ListPromptsRequest {
    pub method: String,
    pub params: Option<PaginatedParams>,
}

/// Sent from the client to request a list of tools.
#[derive(Debug)]
pub struct ListToolsRequest {
    pub method: String,
    pub params: Option<PaginatedParams>,
}

/// Used by the client to invoke a tool provided by the server.
#[derive(Debug)]
pub struct CallToolRequest {
    pub method: String,
    pub params: CallToolParams,
}

/// Parameters of a tool call.
#[derive(Debug)]
pub struct CallToolParams {
    pub name: String,
    pub arguments: Option<Arguments>,
    pub _meta: Option<RequestMeta>,
}

/// A request from the client to enable or adjust logging.
#[derive(Debug)]
pub struct SetLevelRequest {
    pub method: String,
    pub params: SetLevelParams,
}

/// Parameters of a logging level change.
#[derive(Debug)]
pub struct SetLevelParams {
    pub level: LoggingLevel,
    pub _meta: Option<RequestMeta>,
}

/// A request from the client to ask for completion options.
#[derive(Debug)]
pub struct CompleteRequest {
    pub method: String,
    pub params: CompleteParams,
}

/// Parameters of a completion request.
#[derive(Debug)]
pub struct CompleteParams {
    pub reference: Reference,
    pub argument: ArgumentInfo,
    pub context: Option<CompleteContext>,
    pub _meta: Option<RequestMeta>,
}

/// Additional context for completions.
#[derive(Debug, Clone)]
pub struct CompleteContext {
    /// Previously-resolved variables in a URI template or prompt.
    pub arguments: Option<StrMap<String>>,
}

impl Default for CompleteContext {
    fn default() -> (r: CompleteContext)
        ensures
            r.arguments is None,
    {
        CompleteContext::new()
    }
}

impl CompleteContext {
    /// Creates a context with no arguments.
    pub fn new() -> (r: CompleteContext)
        ensures
            r.arguments is None,
    {
        CompleteContext { arguments: None }
    }

    /// Creates a context with the given arguments.
    pub fn with_arguments(arguments: StrMap<String>) -> (r: CompleteContext)
        ensures
            r.arguments == Some(arguments),
    {
        CompleteContext { arguments: Some(arguments) }
    }

    /// Adds a single argument, replacing one with the same key.
    pub fn add_argument(self, key: &str, value: &str) -> (r: CompleteContext)
        requires
            opt_wf(self.arguments),
        ensures
            r.arguments matches Some(m) && m.wf() && is_some_text(m.spec_get(key@), value@),
            forall|k: Seq<char>|
                k != key@ ==> #[trigger] opt_get(r.arguments, k) == opt_get(self.arguments, k),
    {
        let mut m = match self.arguments {
            Some(m) => m,
            None => StrMap::new(),
        };
        m.insert(key.to_string(), value.to_string());
        CompleteContext { arguments: Some(m) }
    }

    /// Replaces the arguments.
    pub fn set_arguments(self, arguments: StrMap<String>) -> (r: CompleteContext)
        ensures
            r.arguments == Some(arguments),
    {
        CompleteContext { arguments: Some(arguments) }
    }
}

/// Sent from the server to request a list of root URIs from the client.
#[derive(Debug)]
pub struct ListRootsRequest {
    pub method: String,
    pub params: Option<StrMap<JsonValue>>,
}

/// A request from the server to elicit information from the user.
#[derive(Debug)]
pub struct ElicitRequest {
    pub method: String,
    pub params: ElicitParams,
}

/// Parameters of an elicitation.
#[derive(Debug)]
pub struct ElicitParams {
    /// The message to present to the user.
    pub message: String,
    /// A restricted subset of JSON Schema.
    pub requested_schema: ElicitSchema,
    pub _meta: Option<RequestMeta>,
}

/// The schema of an elicitation form.
#[derive(Debug)]
pub struct ElicitSchema {
    pub schema_type: String,
    pub properties: StrMap<PrimitiveSchemaDefinition>,
    pub required: Option<Vec<String>>,
}

/// The client's response to an elicitation request.
#[derive(Debug)]
pub struct ElicitResult {
    /// The user action in response to the elicitation.
    pub action: ElicitAction,
    /// The submitted form data, only present when the action is accept.
    pub content: Option<StrMap<ElicitValue>>,
    pub _meta: Option<StrMap<JsonValue>>,
}

impl ElicitResult {
    /// Sets the metadata.
    pub fn with_meta(self, meta: StrMap<JsonValue>) -> (r: ElicitResult)
        ensures
            r._meta == Some(meta),
            r.action == self.action && r.content == self.content,
    {
        ElicitResult { _meta: Some(meta), ..self }
    }

    /// Adds a single metadata entry.
    pub fn with_meta_entry(self, key: &str, value: JsonValue) -> (r: ElicitResult)
        requires
            opt_wf(self._meta),
        ensures
            r._meta matches Some(m) && m.wf() && m.spec_get(key@) == Some(value),
            forall|k: Seq<char>| k != key@ ==> #[trigger] opt_get(r._meta, k) == opt_get(self._meta, k),
            r.action == self.action && r.content == self.content,
    {
        let m = insert_into(self._meta, key, value);
        ElicitResult { _meta: Some(m), ..self }
    }
}

/// The user's answer to an elicitation.
#[derive(Debug, Clone, Copy, PartialEq, Eq, Structural)]
pub enum ElicitAction {
    Accept,
    Decline,
    Cancel,
}

/// A submitted form value.
#[derive(Debug, Clone)]
pub enum ElicitValue {
    String(String),
    Number(JsonNumber),
    Boolean(bool),
}

/// Restricted schema definitions that only allow primitive types.
#[derive(Debug, Clone)]
pub enum PrimitiveSchemaDefinition {
    String(StringSchema),
    Number(NumberSchema),
    Integer(NumberSchema),
    Boolean(BooleanSchema),
}

/// A string field of an elicitation form.
#[derive(Debug, Clone)]
pub struct StringSchema {
    pub title: Option<String>,
    pub description: Option<String>,
    pub min_length: Option<u32>,
    pub max_length: Option<u32>,
    pub format: Option<StringFormat>,
    pub enum_values: Option<Vec<String>>,
    pub enum_names: Option<Vec<String>>,
}

/// Formats a string field may be constrained to.
#[derive(Debug, Clone, Copy, PartialEq, Eq, Structural)]
pub enum StringFormat {
    Email,
    Uri,
    Date,
    DateTime,
}

/// A number field of an elicitation form; bounds are JSON numbers.
#[derive(Debug, Clone)]
pub struct NumberSchema {
    pub title: Option<String>,
    pub description: Option<String>,
    pub minimum: Option<JsonNumber>,
    pub maximum: Option<JsonNumber>,
}

/// A boolean field of an elicitation form.
#[derive(Debug, Clone)]
pub struct BooleanSchema {
    pub title: Option<String>,
    pub description: Option<String>,
    pub default: Option<bool>,
}

/// Sent from the client to the server when it first connects.
#[derive(Debug)]
pub struct InitializeRequest {
    pub method: String,
    pub params: InitializeParams,
}

/// Parameters of the initialize request.
#[derive(Debug)]
pub struct InitializeParams {
    pub protocol_version: String,
    pub capabilities: ClientCapabilities,
    pub client_info: Implementation,
}

/// A ping, issued by either side to check that the other is still alive.
#[derive(Debug)]
pub struct PingRequest {
    pub method: String,
    pub params: Option<StrMap<JsonValue>>,
}

/// Sent from the client to the server once initialization has finished.
#[derive(Debug)]
pub struct InitializedNotification {
    pub method: String,
    pub params: Option<StrMap<JsonValue>>,
}

/// Tells the client that the list of resources has changed.
#[derive(Debug)]
pub struct ResourceListChangedNotification {
    pub method: String,
    pub params: Option<StrMap<JsonValue>>,
}

/// Tells the client that a resource it subscribed to has changed.
#[derive(Debug)]
pub struct ResourceUpdatedNotification {
    pub method: String,
    pub params: ResourceUpdatedParams,
}

/// Parameters of a resource update notification.
#[derive(Debug)]
pub struct ResourceUpdatedParams {
    /// The URI of the resource that has been updated.
    pub uri: String,
    /// Reserved metadata.
    pub _meta: Option<StrMap<JsonValue>>,
}

impl ResourceUpdatedParams {
    /// Sets the metadata.
    pub fn with_meta(self, meta: StrMap<JsonValue>) -> (r: ResourceUpdatedParams)
        ensures
            r._meta == Some(meta),
            r.uri == self.uri,
    {
        ResourceUpdatedParams { _meta: Some(meta), ..self }
    }

    /// Adds a single metadata entry.
    pub fn with_meta_entry(self, key: &str, value: JsonValue) -> (r: ResourceUpdatedParams)
        requires
            opt_wf(self._meta),
        ensures
            r._meta matches Some(m) && m.wf() && m.spec_get(key@) == Some(value),
            forall|k: Seq<char>| k != key@ ==> #[trigger] opt_get(r._meta, k) == opt_get(self._meta, k),
            r.uri == self.uri,
    {
        let m = insert_into(self._meta, key, value);
        ResourceUpdatedParams { _meta: Some(m), ..self }
    }
}

/// Used by the client to get a prompt provided by the server.
#[derive(Debug)]
pub struct GetPromptRequest {
    pub method: String,
    pub params: GetPromptParams,
}

/// Parameters of a prompt request.
#[derive(Debug)]
pub struct GetPromptParams {
    /// The name of the prompt or prompt template.
    pub name: String,
    /// Arguments to use for templating the prompt.
    pub arguments: Option<Arguments>,
    pub _meta: Option<RequestMeta>,
}

/// Tells the client that the list of prompts has changed.
#[derive(Debug)]
pub struct PromptListChangedNotification {
    pub method: String,
    pub params: Option<StrMap<JsonValue>>,
}

/// Tells the client that the list of tools has changed.
#[derive(Debug)]
pub struct ToolListChangedNotification {
    pub method: String,
    pub params: Option<StrMap<JsonValue>>,
}

/// A log message passed from server to client.
#[derive(Debug)]
pub struct LoggingMessageNotification {
    pub method: String,
    pub params: LoggingMessageParams,
}

/// Parameters of a log message.
#[derive(Debug)]
pub struct LoggingMessageParams {
    /// The severity of this log message.
    pub level: LoggingLevel,
    /// An optional name of the logger issuing this message.
    pub logger: Option<String>,
    /// The data to be logged.
    pub data: JsonValue,
    /// Reserved metadata.
    pub _meta: Option<StrMap<JsonValue>>,
}

impl LoggingMessageParams {
    /// Sets the metadata.
    pub fn with_meta(self, meta: StrMap<JsonValue>) -> (r: LoggingMessageParams)
        ensures
            r._meta == Some(meta),
            r.level == self.level && r.logger == self.logger && r.data == self.data,
    {
        LoggingMessageParams { _meta: Some(meta), ..self }
    }

    /// Adds a single metadata entry.
    pub fn with_meta_entry(self, key: &str, value: JsonValue) -> (r: LoggingMessageParams)
        requires
            opt_wf(self._meta),
        ensures
            r._meta matches Some(m) && m.wf() && m.spec_get(key@) == Some(value),
            forall|k: Seq<char>| k != key@ ==> #[trigger] opt_get(r._meta, k) == opt_get(self._meta, k),
            r.level == self.level && r.logger == self.logger && r.data == self.data,
    {
        let m = insert_into(self._meta, key, value);
        LoggingMessageParams { _meta: Some(m), ..self }
    }
}

/// A request from the server to sample a language model through the client.
#[derive(Debug)]
pub struct CreateMessageRequest {
    pub method: String,
    pub params: CreateMessageParams,
}

/// Tells the server that the client's list of roots has changed.
#[derive(Debug)]
pub struct RootsListChangedNotification {
    pub method: String,
    pub params: Option<StrMap<JsonValue>>,
}

} // verus!
