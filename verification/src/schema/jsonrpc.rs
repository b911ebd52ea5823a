//! JSON-RPC 2.0 envelope types and the protocol's fixed names.
use vstd::prelude::*;

use crate::json::JsonValue;
use crate::map::{insert_into, opt_get, opt_wf, StrMap};

verus! {

/// The protocol version before the latest one.
pub const PREVIOUS_PROTOCOL_VERSION: &'static str = "2025-03-26";

/// The latest protocol version this library speaks.
pub const LATEST_PROTOCOL_VERSION: &'static str = "2025-06-18";

/// The JSON-RPC version carried in every envelope.
pub const JSONRPC_VERSION: &'static str = "2.0";

/// Invalid JSON was received.
pub const PARSE_ERROR: i32 = -32700;

/// The JSON sent is not a valid request object.
pub const INVALID_REQUEST: i32 = -32600;

/// The method does not exist or is not available.
pub const METHOD_NOT_FOUND: i32 = -32601;

/// Invalid method parameters.
pub const INVALID_PARAMS: i32 = -32602;

/// Internal JSON-RPC error.
pub const INTERNAL_ERROR: i32 = -32603;

/// A progress token, used to associate progress notifications with the request they report on.
#[derive(Debug, Clone)]
pub enum ProgressToken {
    String(String),
    Number(i64),
}

/// An opaque token used to represent a cursor for pagination.
#[derive(Debug, Clone, Hash)]
pub struct Cursor(pub String);

impl Cursor {
    /// Makes a cursor holding a copy of `s`.
    pub fn new(s: &str) -> (c: Cursor)
        ensures
            c.0@ == s@,
    {
        Cursor(s.to_string())
    }

    /// The text of this cursor.
    pub fn as_str(&self) -> (s: &str)
        ensures
            s@ == self.0@,
    {
        self.0.as_str()
    }
}

impl PartialEq for Cursor {
    fn eq(&self, other: &Self) -> (r: bool) {
        self.0 == other.0
    }
}

impl Eq for Cursor {}

impl vstd::std_specs::cmp::PartialEqSpecImpl for Cursor {
    open spec fn obeys_eq_spec() -> bool {
        true
    }

    open spec fn eq_spec(&self, other: &Self) -> bool {
        self.0@ == other.0@
    }
}

impl From<String> for Cursor {
    fn from(s: String) -> (c: Cursor) {
        Cursor(s)
    }
}

impl vstd::std_specs::convert::FromSpecImpl<String> for Cursor {
    open spec fn obeys_from_spec() -> bool {
        true
    }

    open spec fn from_spec(s: String) -> Cursor {
        Cursor(s)
    }
}

/// Metadata a caller may attach to a request.
#[derive(Debug, Clone)]
pub struct RequestMeta {
    /// If specified, the caller is requesting out-of-band progress notifications
    /// for this request.
    pub progress_token: Option<ProgressToken>,
}

/// The method and parameters of a request.
#[derive(Debug)]
pub struct Request {
    pub method: String,
    pub params: Option<RequestParams>,
}

/// Parameters of a request: optional metadata plus named members.
#[derive(Debug)]
pub struct RequestParams {
    pub _meta: Option<RequestMeta>,
    pub other: StrMap<JsonValue>,
}

/// The method and parameters of a notification.
#[derive(Debug)]
pub struct Notification {
    pub method: String,
    pub params: Option<NotificationParams>,
}

/// Parameters of a notification.
#[derive(Debug)]
pub struct NotificationParams {
    pub other: StrMap<JsonValue>,
    pub _meta: Option<StrMap<JsonValue>>,
}

impl NotificationParams {
    /// Sets the metadata.
    pub fn with_meta(self, meta: StrMap<JsonValue>) -> (r: NotificationParams)
        ensures
            r._meta == Some(meta),
            r.other == self.other,
    {
        NotificationParams { _meta: Some(meta), ..self }
    }

    /// Adds a single metadata entry.
    pub fn with_meta_entry(self, key: &str, value: JsonValue) -> (r: NotificationParams)
        requires
            opt_wf(self._meta),
        ensures
            r._meta matches Some(m) && m.wf() && m.spec_get(key@) == Some(value),
            forall|k: Seq<char>| k != key@ ==> #[trigger] opt_get(r._meta, k) == opt_get(self._meta, k),
            r.other == self.other,
    {
        let m = insert_into(self._meta, key, value);
        NotificationParams { _meta: Some(m), ..self }
    }
}

/// The members of a successful result.
#[derive(Debug)]
pub struct JSONRpcResult {
    pub other: StrMap<JsonValue>,
    pub _meta: Option<StrMap<JsonValue>>,
}

impl JSONRpcResult {
    /// Sets the metadata.
    pub fn with_meta(self, meta: StrMap<JsonValue>) -> (r: JSONRpcResult)
        ensures
            r._meta == Some(meta),
            r.other == self.other,
    {
        JSONRpcResult { _meta: Some(meta), ..self }
    }

    /// Adds a single metadata entry.
    pub fn with_meta_entry(self, key: &str, value: JsonValue) -> (r: JSONRpcResult)
        requires
            opt_wf(self._meta),
        ensures
            r._meta matches Some(m) && m.wf() && m.spec_get(key@) == Some(value),
            forall|k: Seq<char>| k != key@ ==> #[trigger] opt_get(r._meta, k) == opt_get(self._meta, k),
            r.other == self.other,
    {
        let m = insert_into(self._meta, key, value);
        JSONRpcResult { _meta: Some(m), ..self }
    }
}

/// A result that carries no data.
pub type EmptyResult = JSONRpcResult;

/// A uniquely identifying ID for a request in JSON-RPC.
#[derive(Debug, Clone, Hash)]
pub enum RequestId {
    String(String),
    Number(i64),
}

/// Whether two request ids denote the same id.
pub open spec fn same_request_id(a: RequestId, b: RequestId) -> bool {
    match (a, b) {
        (RequestId::String(x), RequestId::String(y)) => x@ == y@,
        (RequestId::Number(x), RequestId::Number(y)) => x == y,
        _ => false,
    }
}

impl RequestId {
    /// Compares two request ids.
    pub fn same_as(&self, other: &RequestId) -> (r: bool)
        ensures
            r == same_request_id(*self, *other),
    {
        match (self, other) {
            (RequestId::String(x), RequestId::String(y)) => *x == *y,
            (RequestId::Number(x), RequestId::Number(y)) => *x == *y,
            _ => false,
        }
    }

    /// A copy of this id.
    pub fn duplicate(&self) -> (r: RequestId)
        ensures
            same_request_id(r, *self),
            r == *self,
    {
        match self {
            RequestId::String(s) => RequestId::String(s.clone()),
            RequestId::Number(n) => RequestId::Number(*n),
        }
    }
}

/// Law: request ids are compared by their whole value. Two string ids are
/// the same id exactly when their texts are equal, two numeric ids exactly
/// when their numbers are equal, and a string id is never a numeric one.
pub proof fn law_request_ids_compare_by_value(x: String, y: String, m: i64, n: i64)
    ensures
        same_request_id(RequestId::String(x), RequestId::String(y)) <==> x@ == y@,
        same_request_id(RequestId::Number(m), RequestId::Number(n)) <==> m == n,
        !same_request_id(RequestId::String(x), RequestId::Number(n)),
        !same_request_id(RequestId::Number(m), RequestId::String(y)),
{
}

impl PartialEq for RequestId {
    fn eq(&self, other: &Self) -> (r: bool) {
        self.same_as(other)
    }
}

impl Eq for RequestId {}

impl vstd::std_specs::cmp::PartialEqSpecImpl for RequestId {
    open spec fn obeys_eq_spec() -> bool {
        true
    }

    open spec fn eq_spec(&self, other: &Self) -> bool {
        same_request_id(*self, *other)
    }
}

/// A request that expects a response.
#[derive(Debug)]
pub struct JSONRPCRequest {
    pub jsonrpc: String,
    pub id: RequestId,
    pub request: Request,
}

/// A notification which does not expect a response.
#[derive(Debug)]
pub struct JSONRPCNotification {
    pub jsonrpc: String,
    pub notification: Notification,
}

/// A successful (non-error) response to a request.
#[derive(Debug)]
pub struct JSONRPCResponse {
    pub jsonrpc: String,
    pub id: RequestId,
    pub result: JSONRpcResult,
}

/// The error member of an error response.
#[derive(Debug)]
pub struct ErrorObject {
    /// The error type that occurred.
    pub code: i32,
    /// A short description of the error.
    pub message: String,
    /// Additional information about the error.
    pub data: Option<JsonValue>,
}

/// A response to a request that indicates an error occurred.
#[derive(Debug)]
pub struct JSONRPCError {
    pub jsonrpc: String,
    pub id: RequestId,
    pub error: ErrorObject,
}

/// Either a request or a notification.
#[derive(Debug)]
pub enum JSONRPCRequestOrNotification {
    Request(JSONRPCRequest),
    Notification(JSONRPCNotification),
}

/// Either a response or an error.
#[derive(Debug)]
pub enum JSONRPCResponseOrError {
    Response(JSONRPCResponse),
    Error(JSONRPCError),
}

/// A batch of requests and notifications.
pub type JSONRPCBatchRequest = Vec<JSONRPCRequestOrNotification>;

/// A batch of responses and errors.
pub type JSONRPCBatchResponse = Vec<JSONRPCResponseOrError>;

/// Any valid JSON-RPC object that can be decoded off the wire, or encoded to be sent.
#[derive(Debug)]
pub enum JSONRPCMessage {
    Request(JSONRPCRequest),
    Notification(JSONRPCNotification),
    BatchRequest(JSONRPCBatchRequest),
    Response(JSONRPCResponse),
    Error(JSONRPCError),
    BatchResponse(JSONRPCBatchResponse),
}

/// The JSON-RPC version string as an owned string.
pub fn jsonrpc_version() -> (s: String)
    ensures
        s@ == JSONRPC_VERSION@,
{
    JSONRPC_VERSION.to_string()
}

} // verus!
