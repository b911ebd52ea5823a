//! The Model Context Protocol's message and data types.
pub mod capabilities;
pub mod completions;
pub mod content;
pub mod implementation;
pub mod initialization;
pub mod jsonrpc;
pub mod logging;
pub mod prompts;
pub mod requests;
pub mod resources;
pub mod roots;
pub mod sampling;
pub mod tools;

pub use capabilities::{
    ClientCapabilities, PromptsCapability, ResourcesCapability, RootsCapability,
    ServerCapabilities, ToolsCapability,
};
pub use implementation::Implementation;
pub use jsonrpc::{
    Cursor, EmptyResult, ErrorObject, JSONRPCBatchRequest, JSONRPCBatchResponse, JSONRPCError,
    JSONRPCMessage, JSONRPCNotification, JSONRPCRequest, JSONRPCRequestOrNotification,
    JSONRPCResponse, JSONRPCResponseOrError, JSONRpcResult, Notification, NotificationParams,
    ProgressToken, Request, RequestId, RequestMeta, RequestParams, INTERNAL_ERROR, INVALID_PARAMS,
    INVALID_REQUEST, JSONRPC_VERSION, LATEST_PROTOCOL_VERSION, METHOD_NOT_FOUND, PARSE_ERROR,
    PREVIOUS_PROTOCOL_VERSION,
};
pub use logging::LoggingLevel;
pub use completions::{
    ArgumentInfo, CompleteResult, CompletionInfo, PromptReference, Reference, ResourceReference,
};
pub use content::{
    Annotations, AudioContent, Content, EmbeddedResource, ImageContent, ResourceLink, Role,
    TextContent,
};
pub use resources::{
    BlobResourceContents, ListResourceTemplatesResult, ListResourcesResult, ReadResourceResult,
    Resource, ResourceContents, ResourceTemplate, TextResourceContents,
};
pub use roots::{ListRootsResult, Root};
pub use sampling::{
    CreateMessageParams, CreateMessageResult, IncludeContext, ModelHint, ModelPreferences,
    SamplingContent, SamplingMessage, StopReason,
};
pub use initialization::InitializeResult;
pub use prompts::{GetPromptResult, ListPromptsResult, Prompt, PromptArgument, PromptMessage};
pub use tools::{
    CallToolResult, ListToolsResult, Tool, ToolAnnotations, ToolInputSchema, ToolOutputSchema,
    ToolSchema,
};
pub use requests::{
    BooleanSchema, CallToolParams, CallToolRequest, CreateMessageRequest, GetPromptParams,
    GetPromptRequest, InitializedNotification, LoggingMessageNotification, LoggingMessageParams,
    PromptListChangedNotification, ResourceListChangedNotification, ResourceUpdatedNotification,
    ResourceUpdatedParams, RootsListChangedNotification, ToolListChangedNotification, CancelledNotification, CancelledParams,
    ClientNotification, ClientRequest, CompleteContext, CompleteParams, CompleteRequest,
    ElicitAction, ElicitParams, ElicitRequest, ElicitResult, ElicitSchema, ElicitValue,
    InitializeParams, InitializeRequest, ListPromptsRequest, ListResourceTemplatesRequest,
    ListResourcesRequest, ListRootsRequest, ListToolsRequest, NumberSchema, PaginatedParams,
    PaginatedRequest, PaginatedResult, PingRequest, PrimitiveSchemaDefinition,
    ProgressNotification, ProgressParams, ReadResourceParams, ReadResourceRequest,
    ServerNotification, ServerRequest, SetLevelParams, SetLevelRequest, StringFormat,
    StringSchema, SubscribeParams, SubscribeRequest, UnsubscribeParams, UnsubscribeRequest,
};
