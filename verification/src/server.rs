//! Decisions of the server's message loop: the object a request or a
//! notification is read from, the message a handler's result becomes, and
//! where each incoming message goes.
use vstd::prelude::*;

use crate::error::{error_text, response_error_code, Error};
use crate::json::JsonValue;
use crate::map::{opt_get, opt_wf, StrMap};
use crate::schema::jsonrpc::{
    JSONRPCMessage, JSONRpcResult, JSONRPCResponse, Notification, Request, RequestId,
    JSONRPC_VERSION,
};
use crate::text::{contains_text, join4, occurs_at};

verus! {

/// Whether `r` is the object read from a method name and its parameters:
/// every parameter, plus `"method"` holding the method name unless a
/// parameter of that name replaces it.
pub open spec fn is_method_object(
    r: StrMap<JsonValue>,
    method: Seq<char>,
    params: Option<StrMap<JsonValue>>,
) -> bool {
    &&& r.wf()
    &&& forall|k: Seq<char>|
        opt_get(params, k) is Some ==> #[trigger] r.spec_get(k) == opt_get(params, k)
    &&& forall|k: Seq<char>|
        k != "method"@ && opt_get(params, k) is None ==> #[trigger] r.spec_get(k) is None
    &&& opt_get(params, "method"@) is None ==> (r.spec_get("method"@) matches Some(
        JsonValue::String(m),
    ) && m@ == method)
}

/// The object a message is read from: `"method"` with the method name, then
/// each parameter in turn.
pub fn method_object(method: &str, params: Option<StrMap<JsonValue>>) -> (r: StrMap<JsonValue>)
    requires
        opt_wf(params),
    ensures
        is_method_object(r, method@, params),
{
    let mut object: StrMap<JsonValue> = StrMap::new();
    let ghost empty = object;
    object.insert("method".to_string(), JsonValue::from_str(method));
    let ghost first = object;
    match params {
        Some(p) => {
            object.extend(p);
            assert forall|k: Seq<char>| k != "method"@ implies #[trigger] first.spec_get(k) is None by {
                assert(empty.spec_get(k) is None);
            }
        },
        None => {
            assert forall|k: Seq<char>| k != "method"@ implies #[trigger] object.spec_get(k) is None by {
                assert(empty.spec_get(k) is None);
            }
        },
    }
    object
}

/// The parameters of an optional request parameter block.
pub open spec fn request_members(request: Request) -> Option<StrMap<JsonValue>> {
    match request.params {
        Some(p) => Some(p.other),
        None => None,
    }
}

/// The parameters of an optional notification parameter block.
pub open spec fn notification_members(notification: Notification) -> Option<StrMap<JsonValue>> {
    match notification.params {
        Some(p) => Some(p.other),
        None => None,
    }
}

/// The object a request is read from.
pub fn request_object(request: Request) -> (r: StrMap<JsonValue>)
    requires
        opt_wf(request_members(request)),
    ensures
        is_method_object(r, request.method@, request_members(request)),
{
    let params = match request.params {
        Some(p) => Some(p.other),
        None => None,
    };
    method_object(request.method.as_str(), params)
}

/// The object a notification is read from.
pub fn notification_object(notification: Notification) -> (r: StrMap<JsonValue>)
    requires
        opt_wf(notification_members(notification)),
    ensures
        is_method_object(r, notification.method@, notification_members(notification)),
{
    let params = match notification.params {
        Some(p) => Some(p.other),
        None => None,
    };
    method_object(notification.method.as_str(), params)
}

/// Whether some position of `detail` starts the text `needle`.
pub open spec fn mentions(detail: Seq<char>, needle: Seq<char>) -> bool {
    exists|i: int| occurs_at(detail, needle, i)
}

/// The error that answers a request whose object could not be read as a
/// client request, given the reader's explanation `detail`: an unknown
/// method when the reader met an unknown variant, invalid parameters
/// otherwise.
pub fn request_parse_error(method: &str, detail: &str) -> (e: Error)
    ensures
        mentions(detail@, "unknown variant"@) ==> (e matches Error::MethodNotFound(m) && m@
            == method@),
        !mentions(detail@, "unknown variant"@) ==> (e matches Error::InvalidParams(s) && s@
            == "Invalid parameters for "@ + method@ + ": "@ + detail@),
{
    if contains_text(detail, "unknown variant") {
        Error::MethodNotFound(method.to_string())
    } else {
        Error::InvalidParams(join4("Invalid parameters for ", method, ": ", detail))
    }
}

/// Whether `r` holds the members of a successful result `v`: an object's own
/// members, or any other value under the single key `"result"`.
pub open spec fn is_result_members(r: StrMap<JsonValue>, v: JsonValue) -> bool {
    match v {
        JsonValue::Object(m) => r == m,
        _ => r.wf() && r.spec_get("result"@) == Some(v) && forall|k: Seq<char>|
            k != "result"@ ==> #[trigger] r.spec_get(k) is None,
    }
}

/// The members of a successful result.
pub fn result_members(value: JsonValue) -> (r: StrMap<JsonValue>)
    ensures
        is_result_members(r, value),
{
    match value {
        JsonValue::Object(m) => m,
        other => {
            let ghost v = other;
            let mut members: StrMap<JsonValue> = StrMap::new();
            let ghost empty = members;
            members.insert("result".to_string(), other);
            assert forall|k: Seq<char>| k != "result"@ implies #[trigger] members.spec_get(k) is None by {
                assert(empty.spec_get(k) is None);
            }
            members
        },
    }
}

/// The message that answers request `id` once its handler has produced `result`.
pub fn response_message(id: RequestId, result: Result<JsonValue, Error>) -> (m: JSONRPCMessage)
    ensures
        match result {
            Ok(v) => m matches JSONRPCMessage::Response(r) && r.id == id && r.jsonrpc@
                == JSONRPC_VERSION@ && r.result._meta is None && is_result_members(
                r.result.other,
                v,
            ),
            Err(e) => m matches JSONRPCMessage::Error(x) && x.id == id && x.jsonrpc@
                == JSONRPC_VERSION@ && x.error.code == response_error_code(e) && x.error.message@
                == error_text(e) && x.error.data is None,
        },
{
    match result {
        Ok(value) => JSONRPCMessage::Response(
            JSONRPCResponse {
                jsonrpc: JSONRPC_VERSION.to_string(),
                id,
                result: JSONRpcResult { other: result_members(value), _meta: None },
            },
        ),
        Err(e) => JSONRPCMessage::Error(e.to_error_response(id)),
    }
}

/// Where the server's loop sends a message it has read.
#[derive(Debug, Clone, Copy, PartialEq, Eq, Structural)]
pub enum IncomingRoute {
    /// No connection handler was configured: the loop stops.
    NoHandler,
    /// A client's response to a request the server sent; it is not handled
    /// as a request, and nothing is sent back for it.
    ClientResponse,
    /// A client's error answering a request the server sent; it is not
    /// handled as a request, and nothing is sent back for it.
    ClientError,
    /// A request: dispatched to the handler, answered on its own task.
    Request,
    /// A notification: handed to the handler.
    Notification,
    /// A batch of requests, which this server does not handle.
    UnsupportedBatch,
    /// A batch of responses, which the server never asked for.
    UnexpectedBatchResponse,
}

/// Where the message `message` goes, with or without a connection handler.
pub fn route_incoming(message: &JSONRPCMessage, has_handler: bool) -> (r: IncomingRoute)
    ensures
        !has_handler ==> r == IncomingRoute::NoHandler,
        has_handler ==> r == match *message {
            JSONRPCMessage::Response(_) => IncomingRoute::ClientResponse,
            JSONRPCMessage::Error(_) => IncomingRoute::ClientError,
            JSONRPCMessage::Request(_) => IncomingRoute::Request,
            JSONRPCMessage::Notification(_) => IncomingRoute::Notification,
            JSONRPCMessage::BatchRequest(_) => IncomingRoute::UnsupportedBatch,
            JSONRPCMessage::BatchResponse(_) => IncomingRoute::UnexpectedBatchResponse,
        },
{
    if !has_handler {
        return IncomingRoute::NoHandler;
    }
    match message {
        JSONRPCMessage::Response(_) => IncomingRoute::ClientResponse,
        JSONRPCMessage::Error(_) => IncomingRoute::ClientError,
        JSONRPCMessage::Request(_) => IncomingRoute::Request,
        JSONRPCMessage::Notification(_) => IncomingRoute::Notification,
        JSONRPCMessage::BatchRequest(_) => IncomingRoute::UnsupportedBatch,
        JSONRPCMessage::BatchResponse(_) => IncomingRoute::UnexpectedBatchResponse,
    }
}

/// What the server's loop observed in one turn.
#[derive(Debug, Clone, Copy, PartialEq, Eq, Structural)]
pub enum LoopEvent {
    /// A message was read and routed.
    Received(IncomingRoute),
    /// Reading from the transport failed.
    ReadFailed,
    /// The peer closed the transport.
    Disconnected,
    /// A notification or a response was written to the transport.
    Sent,
    /// Writing a notification or a response to the transport failed.
    SendFailed,
    /// The internal notification channel reported an error.
    NotificationChannelError,
}

/// Whether the loop ends after `event`.
pub open spec fn ends_loop(event: LoopEvent) -> bool {
    match event {
        LoopEvent::Received(route) => route == IncomingRoute::NoHandler,
        LoopEvent::ReadFailed => true,
        LoopEvent::Disconnected => true,
        LoopEvent::Sent => false,
        LoopEvent::SendFailed => true,
        LoopEvent::NotificationChannelError => false,
    }
}

/// Whether the server's loop stops after `event`.
pub fn loop_stops(event: LoopEvent) -> (r: bool)
    ensures
        r == ends_loop(event),
{
    match event {
        LoopEvent::Received(route) => match route {
            IncomingRoute::NoHandler => true,
            _ => false,
        },
        LoopEvent::ReadFailed => true,
        LoopEvent::Disconnected => true,
        LoopEvent::Sent => false,
        LoopEvent::SendFailed => true,
        LoopEvent::NotificationChannelError => false,
    }
}

/// Law: a loop with a connection handler keeps running for every message it
/// reads; it ends only when the transport fails or closes.
pub proof fn law_messages_never_end_a_handled_loop(message: JSONRPCMessage, route: IncomingRoute)
    requires
        route == match message {
            JSONRPCMessage::Response(_) => IncomingRoute::ClientResponse,
            JSONRPCMessage::Error(_) => IncomingRoute::ClientError,
            JSONRPCMessage::Request(_) => IncomingRoute::Request,
            JSONRPCMessage::Notification(_) => IncomingRoute::Notification,
            JSONRPCMessage::BatchRequest(_) => IncomingRoute::UnsupportedBatch,
            JSONRPCMessage::BatchResponse(_) => IncomingRoute::UnexpectedBatchResponse,
        },
    ensures
        !ends_loop(LoopEvent::Received(route)),
{
}

} // verus!
