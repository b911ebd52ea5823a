use tenx_mcp::schema::requests::is_client_request_method;
use tenx_mcp::schema::{
    ClientNotification, ClientRequest, Cursor, LoggingLevel, RequestId, ServerNotification,
    ServerRequest,
};

#[test]
fn client_request_methods() {
    assert_eq!(ClientRequest::Ping.method(), "ping");
    assert_eq!(ClientRequest::ListTools { cursor: Some(Cursor::new("test-cursor")) }.method(), "tools/list");
    assert_eq!(ClientRequest::ListResources { cursor: None }.method(), "resources/list");
    assert_eq!(ClientRequest::ListPrompts { cursor: None }.method(), "prompts/list");
    assert_eq!(ClientRequest::ListResourceTemplates { cursor: None }.method(), "resources/templates/list");
    assert_eq!(ClientRequest::SetLevel { level: LoggingLevel::Info }.method(), "logging/setLevel");
    assert_eq!(ClientRequest::CallTool { name: "x".to_string(), arguments: None }.method(), "tools/call");
    for m in [
        "ping", "initialize", "completion/complete", "logging/setLevel", "prompts/get", "prompts/list",
        "resources/list", "resources/templates/list", "resources/read", "resources/subscribe",
        "resources/unsubscribe", "tools/call", "tools/list",
    ] {
        assert!(is_client_request_method(m), "{m}");
    }
    assert!(!is_client_request_method("non_existent"));
    assert!(!is_client_request_method("sampling/createMessage"));
}

#[test]
fn notification_and_server_request_methods() {
    assert_eq!(ClientNotification::Initialized.method(), "notifications/initialized");
    assert_eq!(
        ClientNotification::Cancelled { request_id: RequestId::Number(1), reason: None }.method(),
        "notifications/cancelled"
    );
    assert_eq!(ServerNotification::ToolListChanged.method(), "notifications/tools/list_changed");
    assert_eq!(ServerNotification::ResourceUpdated { uri: "u".to_string() }.method(), "notifications/resources/updated");
    assert_eq!(ServerRequest::ListRoots.method(), "roots/list");
    assert_eq!(ServerRequest::Ping.method(), "ping");
}

#[test]
fn request_ids_compare_by_value() {
    assert!(RequestId::Number(3) == RequestId::Number(3));
    assert!(RequestId::String("a".to_string()) == RequestId::String("a".to_string()));
    assert!(RequestId::String("1".to_string()) != RequestId::Number(1));
    assert!(Cursor::new("c") == Cursor::from("c".to_string()));
}
