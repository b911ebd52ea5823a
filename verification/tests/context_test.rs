use tenx_mcp::connection::{
    client_unsupported, no_completions, no_roots, sampling_unsupported, unknown_prompt,
    unknown_resource, unknown_tool, ClientService,
};
use tenx_mcp::context::{client_cancellation, server_cancellation, tool_call_arguments};
use tenx_mcp::error::Error;
use tenx_mcp::json::JsonValue;
use tenx_mcp::map::StrMap;
use tenx_mcp::schema::{ClientNotification, RequestId, ServerNotification};

#[test]
fn cancellation_needs_a_request() {
    let id = RequestId::Number(3);
    match client_cancellation(Some(&id), Some("stop".to_string())) {
        Ok(ClientNotification::Cancelled { request_id: RequestId::Number(3), reason: Some(r) }) => {
            assert_eq!(r, "stop")
        }
        other => panic!("unexpected {other:?}"),
    }
    assert!(matches!(
        client_cancellation(None, None),
        Err(Error::InternalError(ref m)) if m == "No request ID available to cancel"
    ));
    assert!(matches!(
        server_cancellation(Some(&id), None),
        Ok(ServerNotification::Cancelled { request_id: RequestId::Number(3), reason: None })
    ));
    assert!(matches!(
        server_cancellation(None, Some("x".to_string())),
        Err(Error::InternalError(ref m)) if m == "No request ID available to cancel"
    ));
}

#[test]
fn tool_arguments_from_values() {
    let mut m = StrMap::new();
    m.insert("message".to_string(), JsonValue::String("hello".to_string()));
    match tool_call_arguments(JsonValue::Object(m)) {
        Ok(Some(args)) => assert_eq!(args.get_string("message"), Some("hello".to_string())),
        other => panic!("unexpected {other:?}"),
    }
    assert!(matches!(tool_call_arguments(JsonValue::Null), Ok(None)));
    assert!(matches!(
        tool_call_arguments(JsonValue::Bool(true)),
        Err(Error::InvalidParams(ref m)) if m == "Arguments must be a struct or map"
    ));
}

#[test]
fn default_connection_answers() {
    assert!(matches!(
        unknown_tool("x".to_string()),
        Error::ToolExecutionFailed { ref tool, ref message } if tool == "x" && message == "Tool not found"
    ));
    assert!(matches!(unknown_resource("file:///missing.txt".to_string()), Error::ResourceNotFound { ref uri } if uri == "file:///missing.txt"));
    let e = unknown_prompt("missing_prompt");
    assert_eq!(e.message(), "Handler error for prompt: Prompt 'missing_prompt' not found");
    assert!(no_completions().completion.values.is_empty());
    assert!(no_roots().roots.is_empty());
    assert!(matches!(sampling_unsupported(), Error::MethodNotFound(ref m) if m == "sampling/createMessage"));
    assert!(matches!(client_unsupported(ClientService::CreateMessage), Error::InvalidRequest(ref m) if m == "create_message not implemented"));
    assert!(matches!(client_unsupported(ClientService::ListRoots), Error::InvalidRequest(ref m) if m == "list_roots not implemented"));
    assert!(matches!(client_unsupported(ClientService::Elicit), Error::InvalidRequest(ref m) if m == "elicit not implemented"));
}
