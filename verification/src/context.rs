//! Decisions a handler's context makes: the notification that cancels the
//! request being served, and the arguments a tool call carries.
use vstd::prelude::*;

use crate::arguments::Arguments;
use crate::error::Error;
use crate::json::JsonValue;
use crate::schema::jsonrpc::RequestId;
use crate::schema::requests::{ClientNotification, ServerNotification};

verus! {

/// Whether `e` is the error of a context that serves no request.
pub open spec fn is_no_request_error(e: Error) -> bool {
    e matches Error::InternalError(m) && m@ == "No request ID available to cancel"@
}

/// The error of a context that serves no request.
fn no_request_to_cancel() -> (e: Error)
    ensures
        is_no_request_error(e),
{
    Error::InternalError("No request ID available to cancel".to_string())
}

/// The notification a client sends to cancel the request it is serving,
/// with an optional reason.
pub fn client_cancellation(request_id: Option<&RequestId>, reason: Option<String>) -> (r: Result<
    ClientNotification,
    Error,
>)
    ensures
        match request_id {
            Some(id) => r == Ok::<ClientNotification, Error>(
                ClientNotification::Cancelled { request_id: *id, reason },
            ),
            None => r matches Err(e) && is_no_request_error(e),
        },
{
    match request_id {
        Some(id) => Ok(ClientNotification::Cancelled { request_id: id.duplicate(), reason }),
        None => Err(no_request_to_cancel()),
    }
}

/// The notification a server sends to cancel the request it is serving,
/// with an optional reason.
pub fn server_cancellation(request_id: Option<&RequestId>, reason: Option<String>) -> (r: Result<
    ServerNotification,
    Error,
>)
    ensures
        match request_id {
            Some(id) => r == Ok::<ServerNotification, Error>(
                ServerNotification::Cancelled { request_id: *id, reason },
            ),
            None => r matches Err(e) && is_no_request_error(e),
        },
{
    match request_id {
        Some(id) => Ok(ServerNotification::Cancelled { request_id: id.duplicate(), reason }),
        None => Err(no_request_to_cancel()),
    }
}

/// The arguments of a tool call, given the call's arguments as a JSON
/// value: an object's members; nothing for `null`; any other value is
/// refused.
pub fn tool_call_arguments(value: JsonValue) -> (r: Result<Option<Arguments>, Error>)
    ensures
        match value {
            JsonValue::Object(m) => r == Ok::<Option<Arguments>, Error>(Some(Arguments(m))),
            JsonValue::Null => r == Ok::<Option<Arguments>, Error>(None),
            _ => r matches Err(Error::InvalidParams(m)) && m@
                == "Arguments must be a struct or map"@,
        },
{
    match value {
        JsonValue::Object(m) => Ok(Some(Arguments(m))),
        JsonValue::Null => Ok(None),
        _ => Err(Error::InvalidParams("Arguments must be a struct or map".to_string())),
    }
}

} // verus!
