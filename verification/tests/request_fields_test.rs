use tenx_mcp::json::JsonValue;
use tenx_mcp::map::StrMap;
use tenx_mcp::schema::{
    Annotations, ArgumentInfo, CallToolResult, ClientCapabilities, ClientRequest, CompleteContext,
    Cursor, Reference, ResourceReference, Tool, ToolSchema,
};

fn cursor_text(r: &ClientRequest) -> Option<String> {
    match r {
        ClientRequest::ListTools { cursor }
        | ClientRequest::ListResources { cursor }
        | ClientRequest::ListPrompts { cursor }
        | ClientRequest::ListResourceTemplates { cursor } => cursor.as_ref().map(|c| c.0.clone()),
        _ => None,
    }
}

fn paginated_requests() {
    let request = ClientRequest::ListTools { cursor: Some(Cursor::new("test-cursor")) };
    assert_eq!(request.method(), "tools/list");
    assert_eq!(cursor_text(&request), Some("test-cursor".to_string()));
    let request = ClientRequest::ListTools { cursor: None };
    assert_eq!(request.method(), "tools/list");
    assert_eq!(cursor_text(&request), None);
    let request = ClientRequest::ListResources { cursor: Some(Cursor::new("res-cursor")) };
    assert_eq!(request.method(), "resources/list");
    assert_eq!(cursor_text(&request), Some("res-cursor".to_string()));
    let request = ClientRequest::ListPrompts { cursor: Some(Cursor::new("prompt-cursor")) };
    assert_eq!(request.method(), "prompts/list");
    assert_eq!(cursor_text(&request), Some("prompt-cursor".to_string()));
    let request = ClientRequest::ListResourceTemplates { cursor: Some(Cursor::new("template-cursor")) };
    assert_eq!(request.method(), "resources/templates/list");
    assert_eq!(cursor_text(&request), Some("template-cursor".to_string()));
}

fn elicitation_capability() {
    let caps = ClientCapabilities::new().with_elicitation();
    assert!(matches!(caps.elicitation, Some(JsonValue::Object(_))));
}

fn output_schema() {
    let tool = Tool::new("test_tool", ToolSchema::default()).with_output_schema(ToolSchema::default());
    assert!(tool.output_schema.is_some());
}

fn structured_content() {
    let mut m = StrMap::new();
    m.insert("type".to_string(), JsonValue::String("table".to_string()));
    let result = CallToolResult::new().with_structured_content(JsonValue::Object(m));
    match result.structured_content {
        Some(JsonValue::Object(ref o)) => {
            assert_eq!(o.len(), 1);
            assert!(matches!(o.get("type"), Some(JsonValue::String(ref s)) if s == "table"));
        }
        ref other => panic!("unexpected {other:?}"),
    }
}

fn last_modified() {
    let annotations = Annotations {
        audience: None,
        priority: None,
        last_modified: Some("2024-01-15T10:30:00Z".to_string()),
    };
    assert_eq!(annotations.last_modified.as_deref(), Some("2024-01-15T10:30:00Z"));
}

fn complete_request_context() {
    let request = ClientRequest::Complete {
        reference: Reference::Resource(ResourceReference { uri: "test://resource".to_string() }),
        argument: ArgumentInfo { name: "arg".to_string(), value: "value".to_string() },
        context: Some(CompleteContext::new().add_argument("sessionId", "123")),
    };
    assert_eq!(request.method(), "completion/complete");
    match request {
        ClientRequest::Complete { context: Some(c), .. } => {
            let args = c.arguments.unwrap();
            assert_eq!(args.get("sessionId"), Some(&"123".to_string()));
        }
        _ => panic!("expected a completion request"),
    }
}

#[test]
fn schema_test_paginated_request_serialization() {
    paginated_requests();
}

#[test]
fn requests_test_paginated_request_serialization() {
    paginated_requests();
}

#[test]
fn schema_test_client_capabilities_elicitation() {
    elicitation_capability();
}

#[test]
fn requests_test_client_capabilities_elicitation() {
    elicitation_capability();
}

#[test]
fn schema_test_tool_output_schema() {
    output_schema();
}

#[test]
fn requests_test_tool_output_schema() {
    output_schema();
}

#[test]
fn schema_test_call_tool_result_structured_content() {
    structured_content();
}

#[test]
fn requests_test_call_tool_result_structured_content() {
    structured_content();
}

#[test]
fn schema_test_annotations_last_modified() {
    last_modified();
}

#[test]
fn requests_test_annotations_last_modified() {
    last_modified();
}

#[test]
fn schema_test_complete_request_context() {
    complete_request_context();
}

#[test]
fn requests_test_complete_request_context() {
    complete_request_context();
}
