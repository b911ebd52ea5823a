use tenx_mcp::error::Error;
use tenx_mcp::http::{
    accepts_event_stream, check_protocol_version, client_headers, ends_request_stream,
    event_stream_outcome, get_action, is_initialize, post_action, post_reply, session_after_post,
    wait_failure, Delivery, GetAction, PostAction, PostReply, RequestRouter, WaitOutcome,
    MCP_PROTOCOL_VERSION,
};
use tenx_mcp::map::StrMap;
use tenx_mcp::schema::{
    ErrorObject, JSONRPCError, JSONRPCMessage, JSONRPCNotification, JSONRPCRequest,
    JSONRPCResponse, JSONRpcResult, Notification, Request, RequestId,
};

fn request(id: i64, method: &str) -> JSONRPCMessage {
    JSONRPCMessage::Request(JSONRPCRequest {
        jsonrpc: "2.0".to_string(),
        id: RequestId::Number(id),
        request: Request { method: method.to_string(), params: None },
    })
}

fn response(id: i64) -> JSONRPCMessage {
    JSONRPCMessage::Response(JSONRPCResponse {
        jsonrpc: "2.0".to_string(),
        id: RequestId::Number(id),
        result: JSONRpcResult { other: StrMap::new(), _meta: None },
    })
}

fn notification() -> JSONRPCMessage {
    JSONRPCMessage::Notification(JSONRPCNotification {
        jsonrpc: "2.0".to_string(),
        notification: Notification { method: "test".to_string(), params: None },
    })
}

fn sessions(ids: &[&str]) -> StrMap<()> {
    let mut m = StrMap::new();
    for id in ids {
        m.insert(id.to_string(), ());
    }
    m
}

fn is_uuid_v4(s: &str) -> bool {
    s.len() == 36
        && s.chars().enumerate().all(|(i, c)| {
            if [8, 13, 18, 23].contains(&i) {
                c == '-'
            } else {
                c.is_ascii_digit() || ('a'..='f').contains(&c)
            }
        })
        && s.as_bytes()[14] == b'4'
}

#[test]
fn protocol_version_checks() {
    assert!(check_protocol_version(None));
    assert!(check_protocol_version(Some("2025-06-18")));
    assert!(!check_protocol_version(Some("2024-11-05")));
    assert_eq!(MCP_PROTOCOL_VERSION, "2025-06-18");
}

#[test]
fn initialize_starts_a_session() {
    let none = sessions(&[]);
    match post_action(None, Some("abc".to_string()), None, &request(1, "initialize"), &none) {
        PostAction::StartSession { session_id } => assert_eq!(session_id, "abc"),
        other => panic!("unexpected {other:?}"),
    }
    match post_action(Some("2025-06-18"), None, None, &request(1, "initialize"), &none) {
        PostAction::StartSession { session_id } => assert!(is_uuid_v4(&session_id)),
        other => panic!("unexpected {other:?}"),
    }
    assert!(is_initialize(&request(1, "initialize")));
    assert!(!is_initialize(&request(1, "ping")));
}

#[test]
fn fresh_session_ids_differ() {
    let none = sessions(&[]);
    let a = match post_action(None, None, None, &request(1, "initialize"), &none) {
        PostAction::StartSession { session_id } => session_id,
        other => panic!("unexpected {other:?}"),
    };
    let b = match post_action(None, None, None, &request(1, "initialize"), &none) {
        PostAction::StartSession { session_id } => session_id,
        other => panic!("unexpected {other:?}"),
    };
    assert_ne!(a, b);
}

#[test]
fn post_rejections() {
    let known = sessions(&["s1"]);
    assert!(matches!(
        post_action(Some("1999-01-01"), Some("s1".to_string()), None, &request(1, "initialize"), &known),
        PostAction::Reject { status: 400, body: "Unsupported protocol version" }
    ));
    assert!(matches!(
        post_action(None, None, None, &request(2, "ping"), &known),
        PostAction::Reject { status: 400, body: "Missing session ID" }
    ));
    assert!(matches!(
        post_action(None, Some("s2".to_string()), None, &request(2, "ping"), &known),
        PostAction::Reject { status: 404, body: "Session not found" }
    ));
    assert!(matches!(
        post_action(None, Some("s1".to_string()), None, &JSONRPCMessage::BatchRequest(vec![]), &known),
        PostAction::Reject { status: 400, body: "Batch operations not supported" }
    ));
    let error = JSONRPCMessage::Error(JSONRPCError {
        jsonrpc: "2.0".to_string(),
        id: RequestId::Number(1),
        error: ErrorObject { code: -1, message: String::new(), data: None },
    });
    assert!(matches!(
        post_action(None, Some("s1".to_string()), None, &error, &known),
        PostAction::Reject { status: 400, body: "Batch operations not supported" }
    ));
}

#[test]
fn post_forwarding() {
    let known = sessions(&["s1"]);
    assert!(matches!(
        post_action(None, Some("s1".to_string()), Some("application/json, text/event-stream"), &request(2, "ping"), &known),
        PostAction::ForwardAndStream { ref session_id } if session_id == "s1"
    ));
    assert!(matches!(
        post_action(None, Some("s1".to_string()), Some("application/json"), &request(2, "ping"), &known),
        PostAction::ForwardAndWait { ref session_id } if session_id == "s1"
    ));
    assert!(matches!(
        post_action(None, Some("s1".to_string()), None, &notification(), &known),
        PostAction::ForwardAccepted { ref session_id } if session_id == "s1"
    ));
    assert!(matches!(
        post_action(None, Some("s1".to_string()), None, &response(3), &known),
        PostAction::ForwardAccepted { .. }
    ));
}

#[test]
fn get_actions() {
    let known = sessions(&["s1"]);
    assert!(matches!(
        get_action(Some("x"), Some("s1".to_string()), &known),
        GetAction::Reject { status: 400, body: "Unsupported protocol version" }
    ));
    assert!(matches!(get_action(None, None, &known), GetAction::Reject { status: 400, body: "Missing session ID" }));
    assert!(matches!(
        get_action(None, Some("s9".to_string()), &known),
        GetAction::Reject { status: 404, body: "Session not found" }
    ));
    assert!(matches!(get_action(None, Some("s1".to_string()), &known), GetAction::Stream { ref session_id } if session_id == "s1"));
}

#[test]
fn waits_that_fail() {
    assert_eq!(wait_failure(WaitOutcome::Answered, true), None);
    assert_eq!(wait_failure(WaitOutcome::ChannelClosed, true), Some((500, "No response from server")));
    assert_eq!(wait_failure(WaitOutcome::ChannelClosed, false), Some((500, "No response")));
    assert_eq!(wait_failure(WaitOutcome::TimedOut, true), Some((408, "Initialization timeout")));
    assert_eq!(wait_failure(WaitOutcome::TimedOut, false), Some((408, "Request timeout")));
}

#[test]
fn event_stream_acceptance() {
    assert!(accepts_event_stream(Some("text/event-stream")));
    assert!(!accepts_event_stream(Some("application/json")));
    assert!(!accepts_event_stream(None));
    assert!(ends_request_stream(&response(1)));
    assert!(!ends_request_stream(&notification()));
}

#[test]
fn responses_return_to_their_session_once() {
    let mut router = RequestRouter::new();
    router.note_incoming(&request(1, "ping"), "s1".to_string());
    router.note_incoming(&request(2, "ping"), "s2".to_string());
    router.note_incoming(&notification(), "s3".to_string());
    assert_eq!(router.route_outgoing(&response(2)), Delivery::ToSession("s2".to_string()));
    assert_eq!(router.route_outgoing(&response(2)), Delivery::Nowhere);
    assert_eq!(router.route_outgoing(&response(1)), Delivery::ToSession("s1".to_string()));
    assert_eq!(router.route_outgoing(&notification()), Delivery::Everyone);
}

#[test]
fn later_request_with_same_id_replaces_session() {
    let mut router = RequestRouter::new();
    router.record(RequestId::String("x".to_string()), "s1".to_string());
    router.record(RequestId::String("x".to_string()), "s2".to_string());
    assert_eq!(router.take(&RequestId::String("x".to_string())), Some("s2".to_string()));
    assert_eq!(router.take(&RequestId::String("x".to_string())), None);
    assert_eq!(router.take(&RequestId::Number(1)), None);
}

#[test]
fn client_header_sets() {
    let h = client_headers(None, false);
    assert_eq!(
        h,
        vec![
            ("content-type".to_string(), "application/json".to_string()),
            ("accept".to_string(), "application/json".to_string()),
            ("MCP-Protocol-Version".to_string(), "2025-06-18".to_string()),
        ]
    );
    let h = client_headers(Some("sid"), true);
    assert_eq!(
        h,
        vec![
            ("accept".to_string(), "text/event-stream".to_string()),
            ("MCP-Protocol-Version".to_string(), "2025-06-18".to_string()),
            ("Mcp-Session-Id".to_string(), "sid".to_string()),
        ]
    );
}

#[test]
fn session_capture() {
    assert_eq!(session_after_post(None, true, Some("n".to_string())), Some("n".to_string()));
    assert_eq!(session_after_post(Some("o".to_string()), false, Some("n".to_string())), Some("o".to_string()));
    assert_eq!(session_after_post(Some("o".to_string()), true, None), Some("o".to_string()));
}

#[test]
fn replies_to_posts() {
    assert_eq!(post_reply(&request(1, "ping"), 200), PostReply::ForwardBody);
    assert_eq!(post_reply(&request(1, "ping"), 500), PostReply::ReportFailure);
    assert_eq!(post_reply(&notification(), 202), PostReply::Ignore);
    assert_eq!(post_reply(&notification(), 404), PostReply::ReportFailure);
    assert_eq!(post_reply(&JSONRPCMessage::BatchRequest(vec![]), 500), PostReply::Ignore);
}

#[test]
fn event_stream_outcomes() {
    assert!(matches!(event_stream_outcome(405, "405 Method Not Allowed"), Ok(false)));
    assert!(matches!(event_stream_outcome(200, "200 OK"), Ok(true)));
    assert!(matches!(
        event_stream_outcome(404, "404 Not Found"),
        Err(Error::Transport(ref m)) if m == "SSE connection failed with status: 404 Not Found"
    ));
}
