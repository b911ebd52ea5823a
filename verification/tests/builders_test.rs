use tenx_mcp::schema::{
    CallToolResult, ClientCapabilities, CompleteContext, Content, GetPromptResult, Implementation,
    InitializeResult, ListToolsResult, Prompt, PromptArgument, PromptMessage, Role,
    ResourceTemplate, ServerCapabilities, Tool, ToolSchema,
};
use tenx_mcp::json::JsonValue;

#[test]
fn implementation_builders() {
    let i = Implementation::new("server", "1.0.0").with_title("Server");
    assert_eq!(i.name, "server");
    assert_eq!(i.version, "1.0.0");
    assert_eq!(i.title, Some("Server".to_string()));
}

#[test]
fn initialize_result_builders() {
    let r = InitializeResult::new("test_server");
    assert_eq!(r.protocol_version, "2025-06-18");
    assert_eq!(r.server_info.version, "0.0.1");
    let r = r.with_version("2.0.0").with_tools(true).with_instructions("hi");
    assert_eq!(r.server_info.name, "test_server");
    assert_eq!(r.server_info.version, "2.0.0");
    assert_eq!(r.capabilities.tools.unwrap().list_changed, Some(true));
    assert_eq!(r.instructions, Some("hi".to_string()));
}

#[test]
fn prompt_builders() {
    let a = PromptArgument::new("city").with_description("A city").required(true);
    assert_eq!(a.name, "city");
    assert_eq!(a.description, Some("A city".to_string()));
    assert_eq!(a.required, Some(true));
    let p = Prompt::new("weather").with_argument(a);
    assert_eq!(p.arguments.as_ref().map(|v| v.len()), Some(1));
    let g = GetPromptResult::new().with_message(PromptMessage::user_text("Hello"));
    assert_eq!(g.messages.len(), 1);
    assert!(matches!(g.messages[0].role, Role::User));
    let m = PromptMessage::assistant_text("ok");
    assert!(matches!(m.content, Content::Text(ref t) if t.text == "ok"));
}

#[test]
fn complete_context_builders() {
    let c = CompleteContext::new().add_argument("sessionId", "123");
    let args = c.arguments.unwrap();
    assert_eq!(args.get("sessionId"), Some(&"123".to_string()));
}

#[test]
fn tool_builders() {
    let t = Tool::new("echo", ToolSchema::default()).with_description("Echoes the input").with_read_only_hint(true);
    assert_eq!(t.name, "echo");
    assert_eq!(t.description, Some("Echoes the input".to_string()));
    assert_eq!(t.annotations.unwrap().read_only_hint, Some(true));
    let l = ListToolsResult::new().with_cursor("next");
    assert!(l.tools.is_empty());
    let r = CallToolResult::new().with_text_content("Success");
    assert_eq!(r.content.len(), 1);
}

#[test]
fn capability_builders() {
    let c = ClientCapabilities::new().with_roots_capability(true).with_sampling();
    assert!(c.sampling.is_some());
    assert_eq!(c.roots.unwrap().list_changed, Some(true));
    let s = ServerCapabilities::default().with_tools(Some(false)).with_logging();
    assert!(s.logging.is_some());
    assert_eq!(s.tools.unwrap().list_changed, Some(false));
}

#[test]
fn name_title_and_meta_builders() {
    let p = Prompt::new("a").with_name("b").with_title("B").with_meta_entry("k", JsonValue::Bool(true));
    assert_eq!(p.name, "b");
    assert_eq!(p.title, Some("B".to_string()));
    let meta = p._meta.unwrap();
    assert_eq!(meta.len(), 1);
    assert!(matches!(meta.get("k"), Some(JsonValue::Bool(true))));
    let a = PromptArgument::new("x").with_name("y");
    assert_eq!(a.name, "y");
    let t = ResourceTemplate::new("files", "file:///{path}").with_title("Files").with_name("all");
    assert_eq!(t.name, "all");
    assert_eq!(t.title, Some("Files".to_string()));
    assert_eq!(t.uri_template, "file:///{path}");
    let t = t.with_meta_entry("a", JsonValue::Null).with_meta_entry("a", JsonValue::Bool(false));
    let meta = t._meta.unwrap();
    assert_eq!(meta.len(), 1);
    assert!(matches!(meta.get("a"), Some(JsonValue::Bool(false))));
}
