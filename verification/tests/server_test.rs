use tenx_mcp::error::Error;
use tenx_mcp::json::{JsonNumber, JsonValue};
use tenx_mcp::map::StrMap;
use tenx_mcp::schema::{
    JSONRPCMessage, JSONRPCNotification, JSONRPCRequest, Notification, NotificationParams,
    Request, RequestId, RequestParams, INTERNAL_ERROR, INVALID_PARAMS, METHOD_NOT_FOUND,
};
use tenx_mcp::server::{
    loop_stops, method_object, notification_object, request_object, request_parse_error,
    response_message, result_members, route_incoming, IncomingRoute, LoopEvent,
};

fn params(entries: Vec<(&str, JsonValue)>) -> StrMap<JsonValue> {
    let mut m = StrMap::new();
    for (k, v) in entries {
        m.insert(k.to_string(), v);
    }
    m
}

#[test]
fn method_object_holds_method_and_params() {
    let object = method_object(
        "tools/call",
        Some(params(vec![("name", JsonValue::String("echo".to_string()))])),
    );
    assert_eq!(object.len(), 2);
    assert!(matches!(object.get("method"), Some(JsonValue::String(m)) if m == "tools/call"));
    assert!(matches!(object.get("name"), Some(JsonValue::String(n)) if n == "echo"));
}

#[test]
fn parameter_named_method_wins() {
    let object = method_object("ping", Some(params(vec![("method", JsonValue::Bool(true))])));
    assert_eq!(object.len(), 1);
    assert!(matches!(object.get("method"), Some(JsonValue::Bool(true))));
}

#[test]
fn request_and_notification_objects() {
    let request = Request {
        method: "resources/read".to_string(),
        params: Some(RequestParams {
            _meta: None,
            other: params(vec![("uri", JsonValue::String("file:///a".to_string()))]),
        }),
    };
    let object = request_object(request);
    assert!(matches!(object.get("uri"), Some(JsonValue::String(u)) if u == "file:///a"));
    assert!(matches!(object.get("method"), Some(JsonValue::String(m)) if m == "resources/read"));

    let notification = Notification {
        method: "notifications/initialized".to_string(),
        params: None,
    };
    let object = notification_object(notification);
    assert_eq!(object.len(), 1);
    let notification = Notification {
        method: "notifications/progress".to_string(),
        params: Some(NotificationParams {
            other: params(vec![("progress", JsonValue::Number(JsonNumber::PosInt(3)))]),
            _meta: None,
        }),
    };
    assert_eq!(notification_object(notification).len(), 2);
}

#[test]
fn parse_failures_become_method_or_parameter_errors() {
    let e = request_parse_error("non_existent", "unknown variant `non_existent`, expected one of `ping`");
    assert!(matches!(e, Error::MethodNotFound(ref m) if m == "non_existent"));
    let e = request_parse_error("tools/call", "missing field `name`");
    assert!(
        matches!(e, Error::InvalidParams(ref m) if m == "Invalid parameters for tools/call: missing field `name`")
    );
}

#[test]
fn result_members_of_object_and_other_values() {
    let members = result_members(JsonValue::Object(params(vec![("tools", JsonValue::Array(vec![]))])));
    assert_eq!(members.len(), 1);
    assert!(members.contains_key("tools"));
    let members = result_members(JsonValue::Number(JsonNumber::PosInt(42)));
    assert_eq!(members.len(), 1);
    assert!(matches!(members.get("result"), Some(JsonValue::Number(JsonNumber::PosInt(42)))));
}

#[test]
fn responses_and_errors() {
    match response_message(RequestId::Number(7), Ok(JsonValue::empty_object())) {
        JSONRPCMessage::Response(r) => {
            assert_eq!(r.jsonrpc, "2.0");
            assert!(matches!(r.id, RequestId::Number(7)));
            assert!(r.result.other.is_empty());
            assert!(r.result._meta.is_none());
        }
        other => panic!("unexpected {other:?}"),
    }
    match response_message(
        RequestId::String("a".to_string()),
        Err(Error::MethodNotFound("x".to_string())),
    ) {
        JSONRPCMessage::Error(e) => {
            assert_eq!(e.error.code, METHOD_NOT_FOUND);
            assert_eq!(e.error.message, "Method not found: x");
            assert!(matches!(e.id, RequestId::String(ref s) if s == "a"));
        }
        other => panic!("unexpected {other:?}"),
    }
    match response_message(RequestId::Number(1), Err(Error::ConnectionClosed)) {
        JSONRPCMessage::Error(e) => {
            assert_eq!(e.error.code, INTERNAL_ERROR);
            assert_eq!(e.error.message, "Connection closed");
        }
        other => panic!("unexpected {other:?}"),
    }
    match response_message(RequestId::Number(1), Err(Error::InvalidParams("p".to_string()))) {
        JSONRPCMessage::Error(e) => assert_eq!(e.error.code, INVALID_PARAMS),
        other => panic!("unexpected {other:?}"),
    }
}

fn request(method: &str) -> JSONRPCMessage {
    JSONRPCMessage::Request(JSONRPCRequest {
        jsonrpc: "2.0".to_string(),
        id: RequestId::Number(1),
        request: Request { method: method.to_string(), params: None },
    })
}

#[test]
fn incoming_routes() {
    assert_eq!(route_incoming(&request("ping"), true), IncomingRoute::Request);
    assert_eq!(route_incoming(&request("ping"), false), IncomingRoute::NoHandler);
    let n = JSONRPCMessage::Notification(JSONRPCNotification {
        jsonrpc: "2.0".to_string(),
        notification: Notification { method: "test".to_string(), params: None },
    });
    assert_eq!(route_incoming(&n, true), IncomingRoute::Notification);
    assert_eq!(route_incoming(&JSONRPCMessage::BatchRequest(vec![]), true), IncomingRoute::UnsupportedBatch);
    assert_eq!(
        route_incoming(&JSONRPCMessage::BatchResponse(vec![]), true),
        IncomingRoute::UnexpectedBatchResponse
    );
}

#[test]
fn loop_stops_only_on_transport_trouble() {
    assert!(!loop_stops(LoopEvent::Received(IncomingRoute::Request)));
    assert!(!loop_stops(LoopEvent::Received(IncomingRoute::UnsupportedBatch)));
    assert!(loop_stops(LoopEvent::Received(IncomingRoute::NoHandler)));
    assert!(loop_stops(LoopEvent::ReadFailed));
    assert!(loop_stops(LoopEvent::Disconnected));
    assert!(loop_stops(LoopEvent::SendFailed));
    assert!(!loop_stops(LoopEvent::Sent));
    assert!(!loop_stops(LoopEvent::NotificationChannelError));
}
