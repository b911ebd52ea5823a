//! The library's error type and its mapping onto JSON-RPC error responses.
use vstd::prelude::*;

use crate::text::{join2, join4};
use crate::schema::jsonrpc::{
    ErrorObject, JSONRPCError, RequestId, INTERNAL_ERROR, INVALID_PARAMS, INVALID_REQUEST,
    JSONRPC_VERSION, METHOD_NOT_FOUND, PARSE_ERROR,
};

verus! {

/// Errors raised by the protocol machinery.
#[derive(Debug, Clone)]
pub enum Error {
    Io { message: String },
    JsonParse { message: String },
    Transport(String),
    TransportDisconnected,
    Protocol(String),
    InvalidRequest(String),
    MethodNotFound(String),
    InvalidParams(String),
    InternalError(String),
    ConnectionClosed,
    HandlerError { handler_type: String, message: String },
    ResourceNotFound { uri: String },
    ToolExecutionFailed { tool: String, message: String },
    InvalidMessageFormat { message: String },
    ToolNotFound(String),
    InvalidConfiguration(String),
    AuthorizationFailed(String),
    TransportError(String),
}

/// The result type used throughout the library.
pub type Result<T> = core::result::Result<T, Error>;

/// The human-readable text of an error.
pub open spec fn error_text(e: Error) -> Seq<char> {
    match e {
        Error::Io { message } => "IO error: "@ + message@,
        Error::JsonParse { message } => "JSON serialization error: "@ + message@,
        Error::Transport(s) => "Transport error: "@ + s@,
        Error::TransportDisconnected => "Transport disconnected unexpectedly"@,
        Error::Protocol(s) => "Protocol error: "@ + s@,
        Error::InvalidRequest(s) => "Invalid request: "@ + s@,
        Error::MethodNotFound(s) => "Method not found: "@ + s@,
        Error::InvalidParams(s) => "Invalid parameters: "@ + s@,
        Error::InternalError(s) => "Internal error: "@ + s@,
        Error::ConnectionClosed => "Connection closed"@,
        Error::HandlerError { handler_type, message } => "Handler error for "@ + handler_type@
            + ": "@ + message@,
        Error::ResourceNotFound { uri } => "Resource not found: "@ + uri@,
        Error::ToolExecutionFailed { tool, message } => "Tool execution failed for '"@ + tool@
            + "': "@ + message@,
        Error::InvalidMessageFormat { message } => "Invalid message format: "@ + message@,
        Error::ToolNotFound(s) => "Tool not found: "@ + s@,
        Error::InvalidConfiguration(s) => "Invalid configuration: "@ + s@,
        Error::AuthorizationFailed(s) => "Authorization failed: "@ + s@,
        Error::TransportError(s) => "Transport error: "@ + s@,
    }
}

/// The JSON-RPC error code that answers a request failing with `e`, when the
/// error has one of its own.
pub open spec fn specific_error_code(e: Error) -> Option<i32> {
    match e {
        Error::ToolNotFound(_) => Some(METHOD_NOT_FOUND),
        Error::MethodNotFound(_) => Some(METHOD_NOT_FOUND),
        Error::InvalidParams(_) => Some(INVALID_PARAMS),
        Error::InvalidRequest(_) => Some(INVALID_REQUEST),
        Error::JsonParse { .. } => Some(PARSE_ERROR),
        Error::InvalidMessageFormat { .. } => Some(PARSE_ERROR),
        _ => None,
    }
}

/// The JSON-RPC error code that answers a request failing with `e`.
pub open spec fn response_error_code(e: Error) -> i32 {
    match specific_error_code(e) {
        Some(c) => c,
        None => INTERNAL_ERROR,
    }
}

impl Error {
    /// Creates a HandlerError with type context.
    pub fn handler_error(handler_type: &str, message: &str) -> (e: Error)
        ensures
            e matches Error::HandlerError { handler_type: h, message: m } && h@ == handler_type@
                && m@ == message@,
    {
        Error::HandlerError { handler_type: handler_type.to_string(), message: message.to_string() }
    }

    /// Creates a ToolExecutionFailed error.
    pub fn tool_execution_failed(tool: &str, message: &str) -> (e: Error)
        ensures
            e matches Error::ToolExecutionFailed { tool: t, message: m } && t@ == tool@ && m@
                == message@,
    {
        Error::ToolExecutionFailed { tool: tool.to_string(), message: message.to_string() }
    }

    /// The human-readable text of this error.
    pub fn message(&self) -> (s: String)
        ensures
            s@ == error_text(*self),
    {
        match self {
            Error::Io { message } => join2("IO error: ", message.as_str()),
            Error::JsonParse { message } => join2("JSON serialization error: ", message.as_str()),
            Error::Transport(s) => join2("Transport error: ", s.as_str()),
            Error::TransportDisconnected => "Transport disconnected unexpectedly".to_string(),
            Error::Protocol(s) => join2("Protocol error: ", s.as_str()),
            Error::InvalidRequest(s) => join2("Invalid request: ", s.as_str()),
            Error::MethodNotFound(s) => join2("Method not found: ", s.as_str()),
            Error::InvalidParams(s) => join2("Invalid parameters: ", s.as_str()),
            Error::InternalError(s) => join2("Internal error: ", s.as_str()),
            Error::ConnectionClosed => "Connection closed".to_string(),
            Error::HandlerError { handler_type, message } => join4(
                "Handler error for ",
                handler_type.as_str(),
                ": ",
                message.as_str(),
            ),
            Error::ResourceNotFound { uri } => join2("Resource not found: ", uri.as_str()),
            Error::ToolExecutionFailed { tool, message } => join4(
                "Tool execution failed for '",
                tool.as_str(),
                "': ",
                message.as_str(),
            ),
            Error::InvalidMessageFormat { message } => join2(
                "Invalid message format: ",
                message.as_str(),
            ),
            Error::ToolNotFound(s) => join2("Tool not found: ", s.as_str()),
            Error::InvalidConfiguration(s) => join2("Invalid configuration: ", s.as_str()),
            Error::AuthorizationFailed(s) => join2("Authorization failed: ", s.as_str()),
            Error::TransportError(s) => join2("Transport error: ", s.as_str()),
        }
    }

    /// The error's own JSON-RPC code, for the errors that have one.
    pub fn specific_code(&self) -> (c: Option<i32>)
        ensures
            c == specific_error_code(*self),
    {
        match self {
            Error::ToolNotFound(_) => Some(METHOD_NOT_FOUND),
            Error::MethodNotFound(_) => Some(METHOD_NOT_FOUND),
            Error::InvalidParams(_) => Some(INVALID_PARAMS),
            Error::InvalidRequest(_) => Some(INVALID_REQUEST),
            Error::JsonParse { .. } => Some(PARSE_ERROR),
            Error::InvalidMessageFormat { .. } => Some(PARSE_ERROR),
            _ => None,
        }
    }

    /// Converts the error to a specific JSON-RPC error response if it has its
    /// own code; the other errors get `None` and are answered as internal errors.
    pub fn to_jsonrpc_response(&self, request_id: RequestId) -> (r: Option<JSONRPCError>)
        ensures
            match specific_error_code(*self) {
                Some(code) => r matches Some(resp) && resp.id == request_id && resp.jsonrpc@
                    == JSONRPC_VERSION@ && resp.error.code == code && resp.error.message@
                    == error_text(*self) && resp.error.data is None,
                None => r is None,
            },
    {
        match self.specific_code() {
            Some(code) => Some(
                JSONRPCError {
                    jsonrpc: JSONRPC_VERSION.to_string(),
                    id: request_id,
                    error: ErrorObject { code, message: self.message(), data: None },
                },
            ),
            None => None,
        }
    }

    /// The error response that answers a request failing with this error: the
    /// error's own code where it has one, INTERNAL_ERROR otherwise, and the
    /// error's text as the message.
    pub fn to_error_response(&self, request_id: RequestId) -> (r: JSONRPCError)
        ensures
            r.id == request_id,
            r.jsonrpc@ == JSONRPC_VERSION@,
            r.error.code == response_error_code(*self),
            r.error.message@ == error_text(*self),
            r.error.data is None,
    {
        let code = match self.specific_code() {
            Some(c) => c,
            None => INTERNAL_ERROR,
        };
        JSONRPCError {
            jsonrpc: JSONRPC_VERSION.to_string(),
            id: request_id,
            error: ErrorObject { code, message: self.message(), data: None },
        }
    }
}

/// Law: every failed request is answered with one of the five standard
/// JSON-RPC error codes, and with INTERNAL_ERROR exactly when the error has
/// no code of its own.
pub proof fn law_error_codes_are_standard(e: Error)
    ensures
        response_error_code(e) == PARSE_ERROR || response_error_code(e) == INVALID_REQUEST
            || response_error_code(e) == METHOD_NOT_FOUND || response_error_code(e)
            == INVALID_PARAMS || response_error_code(e) == INTERNAL_ERROR,
        (response_error_code(e) == INTERNAL_ERROR) == (specific_error_code(e) is None),
{
}

} // verus!
