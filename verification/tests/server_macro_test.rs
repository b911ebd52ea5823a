use tenx_mcp::arguments::Arguments;
use tenx_mcp::error::Error;
use tenx_mcp::schema::ToolSchema;
use tenx_mcp::server_macro::{
    parse_server_args, tool_listing,
    check_server, default_initialize_result, dispatch_tool, extract_doc_comment,
    parse_impl_block, parse_tool_method, server_name, validate_custom_initialize_fn,
    MethodSignature, Param, SelfType, ServerInfo, ToolMethod,
};

fn typed(t: &str) -> Param {
    Param::Typed { type_text: t.to_string() }
}

fn method(name: &str, is_tool: bool, is_async: bool, params: Vec<Param>, docs: &[&str]) -> MethodSignature {
    MethodSignature {
        name: name.to_string(),
        is_tool,
        doc_lines: docs.iter().map(|d| d.to_string()).collect(),
        is_async,
        params,
        has_return_type: true,
    }
}

fn tool_params() -> Vec<Param> {
    vec![Param::Receiver, typed("&ServerCtx"), typed("EchoParams")]
}

#[test]
fn doc_comment_lines_are_trimmed_and_joined() {
    let docs = vec![
        " First line".to_string(),
        "   ".to_string(),
        " Second line".to_string(),
        " Third line ".to_string(),
    ];
    assert_eq!(extract_doc_comment(&docs), "First line\nSecond line\nThird line");
    assert_eq!(extract_doc_comment(&vec![]), "");
}

#[test]
fn tool_methods_are_read() {
    let m = method("test_tool", true, true, tool_params(), &[" This is a test tool"]);
    match parse_tool_method(&m) {
        Ok(Some(t)) => {
            assert_eq!(t.name, "test_tool");
            assert_eq!(t.docs, "This is a test tool");
            assert_eq!(t.params_type, "EchoParams");
        }
        other => panic!("unexpected {other:?}"),
    }
    let plain = method("helper", false, false, vec![], &[]);
    assert!(matches!(parse_tool_method(&plain), Ok(None)));
}

#[test]
fn tool_method_checks() {
    let m = method("t", true, false, tool_params(), &[]);
    assert!(matches!(parse_tool_method(&m), Err(ref e) if e.contains("must be async")));
    let m = method("t", true, true, vec![Param::Receiver, typed("X")], &[]);
    assert!(matches!(parse_tool_method(&m), Err(ref e) if e.contains("exactly 3 parameters")));
    let m = method("t", true, true, vec![typed("A"), typed("B"), typed("C")], &[]);
    assert!(matches!(parse_tool_method(&m), Err(ref e) if e == "first parameter must be &self or &mut self"));
    let m = method("t", true, true, vec![Param::Receiver, typed("B"), Param::Receiver], &[]);
    assert!(matches!(parse_tool_method(&m), Err(ref e) if e == "third parameter must be a typed parameter"));
    let mut m = method("t", true, true, tool_params(), &[]);
    m.has_return_type = false;
    assert!(matches!(parse_tool_method(&m), Err(ref e) if e == "tool methods must return Result<schema::CallToolResult>"));
}

#[test]
fn impl_blocks_are_read() {
    let methods = vec![
        method("helper", false, false, vec![Param::Receiver], &[]),
        method("echo", true, true, tool_params(), &[" Echo tool"]),
        method("ping", true, true, tool_params(), &[]),
    ];
    let info = parse_impl_block(
        &SelfType::Path(vec!["crate".to_string(), "TestServer".to_string()]),
        &vec![" Test server implementation".to_string()],
        &methods,
    )
    .unwrap();
    assert_eq!(info.struct_name, "TestServer");
    assert_eq!(info.description, "Test server implementation");
    assert_eq!(info.tools.len(), 2);
    assert_eq!(info.tools[0].name, "echo");
    assert_eq!(info.tools[0].docs, "Echo tool");
    assert_eq!(info.tools[1].name, "ping");
    assert!(matches!(
        parse_impl_block(&SelfType::Other, &vec![], &methods),
        Err(ref e) if e == "Expected a struct or type name"
    ));
    assert!(matches!(
        parse_impl_block(&SelfType::Path(vec![]), &vec![], &methods),
        Err(ref e) if e == "Invalid type name"
    ));
}

#[test]
fn server_without_tools_is_refused() {
    let info = ServerInfo { struct_name: "S".to_string(), description: String::new(), tools: vec![] };
    assert!(matches!(
        check_server(&info, &vec![], None),
        Err(ref e) if e.contains("No tool methods found")
    ));
}

fn init_params() -> Vec<Param> {
    vec![Param::Receiver, typed("&ServerCtx"), typed("String"), typed("ClientCapabilities"), typed("Implementation")]
}

#[test]
fn custom_initialize_checks() {
    let methods = vec![method("my_init", false, true, init_params(), &[])];
    assert!(validate_custom_initialize_fn(&methods, "my_init").is_ok());
    assert!(matches!(
        validate_custom_initialize_fn(&methods, "other"),
        Err(ref e) if e == "Custom initialize function 'other' not found in impl block"
    ));
    let methods = vec![method("my_init", false, false, init_params(), &[])];
    assert!(matches!(
        validate_custom_initialize_fn(&methods, "my_init"),
        Err(ref e) if e == "Custom initialize function must be async"
    ));
    let methods = vec![method("my_init", false, true, vec![Param::Receiver], &[])];
    assert!(matches!(
        validate_custom_initialize_fn(&methods, "my_init"),
        Err(ref e) if e.starts_with("Custom initialize function must have exactly 5 parameters")
    ));
    let mut params = init_params();
    params[0] = typed("Self");
    let methods = vec![method("my_init", false, true, params, &[])];
    assert!(matches!(
        validate_custom_initialize_fn(&methods, "my_init"),
        Err(ref e) if e == "First parameter must be &self"
    ));
    let tools = ServerInfo {
        struct_name: "S".to_string(),
        description: String::new(),
        tools: vec![ToolMethod { name: "t".to_string(), docs: String::new(), params_type: "P".to_string() }],
    };
    assert!(check_server(&tools, &vec![], None).is_ok());
    assert!(check_server(&tools, &vec![], Some("missing")).is_err());
}

#[test]
fn test_snake_case_conversion() {
    let cases = [
        ("TestServer", "test_server"),
        ("MyMCPServer", "my_mcp_server"),
        ("HTTPServer", "http_server"),
        ("SimpleServer", "simple_server"),
        ("MyHTTPAPIServer", "my_httpapi_server"),
    ];
    for (input, expected) in cases {
        assert_eq!(server_name(input), expected);
    }
}

#[test]
fn default_initialize_results() {
    let info = ServerInfo {
        struct_name: "TestServer".to_string(),
        description: "Test description".to_string(),
        tools: vec![],
    };
    let r = default_initialize_result(&info);
    assert_eq!(r.server_info.name, "test_server");
    assert_eq!(r.server_info.version, "0.1.0");
    assert_eq!(r.protocol_version, "2025-06-18");
    assert!(r.capabilities.prompts.is_none() && r.capabilities.resources.is_none());
    assert_eq!(r.instructions, Some("Test description".to_string()));
    assert_eq!(r.capabilities.tools.unwrap().list_changed, Some(false));
    let info = ServerInfo { struct_name: "A".to_string(), description: String::new(), tools: vec![] };
    assert!(default_initialize_result(&info).instructions.is_none());
}

#[test]
fn tool_dispatch() {
    let tools = vec![
        ToolMethod { name: "echo".to_string(), docs: String::new(), params_type: "E".to_string() },
        ToolMethod { name: "add".to_string(), docs: String::new(), params_type: "A".to_string() },
    ];
    assert!(matches!(dispatch_tool(&tools, "add", Some(Arguments::new())), Ok((1, _))));
    assert!(matches!(
        dispatch_tool(&tools, "unknown", Some(Arguments::new())),
        Err(Error::MethodNotFound(ref m)) if m == "Unknown tool: unknown"
    ));
    assert!(matches!(
        dispatch_tool(&tools, "echo", None),
        Err(Error::InvalidParams(ref m)) if m == "Missing arguments"
    ));
}

#[test]
fn tool_listing_from_tools() {
    let tools = vec![
        ToolMethod { name: "echo".to_string(), docs: "Echo tool".to_string(), params_type: "E".to_string() },
        ToolMethod { name: "ping".to_string(), docs: "Ping tool".to_string(), params_type: "P".to_string() },
    ];
    let listing = tool_listing(&tools, vec![ToolSchema::default(), ToolSchema::default()]);
    assert_eq!(listing.tools.len(), 2);
    assert_eq!(listing.tools[0].name, "echo");
    assert_eq!(listing.tools[0].description, Some("Echo tool".to_string()));
    assert_eq!(listing.tools[1].name, "ping");
    assert!(listing.next_cursor.is_none());
}

#[test]
fn server_arguments() {
    assert_eq!(parse_server_args(&vec![]), Ok(None));
    assert_eq!(
        parse_server_args(&vec![("initialize_fn".to_string(), "my_init".to_string())]),
        Ok(Some("my_init".to_string()))
    );
    assert_eq!(
        parse_server_args(&vec![("name".to_string(), "x".to_string())]),
        Err("Unknown argument: name".to_string())
    );
    assert_eq!(
        parse_server_args(&vec![
            ("initialize_fn".to_string(), "i".to_string()),
            ("first".to_string(), "x".to_string()),
            ("second".to_string(), "y".to_string()),
        ]),
        Err("Unknown argument: first".to_string())
    );
}

fn echo_server_methods() -> Vec<MethodSignature> {
    vec![method("echo", true, true, tool_params(), &[" Echo back the input"])]
}

#[test]
fn test_doc_extraction() {
    let attrs = vec![
        " First line".to_string(),
        " Second line".to_string(),
        "".to_string(),
        " Third line".to_string(),
    ];
    assert_eq!(extract_doc_comment(&attrs), "First line\nSecond line\nThird line");
}

#[test]
fn test_parse_tool_method_valid() {
    let m = method("test_tool", true, true, tool_params(), &[" This is a test tool"]);
    let result = parse_tool_method(&m).unwrap();
    assert!(result.is_some());
    let tool = result.unwrap();
    assert_eq!(tool.name, "test_tool");
    assert_eq!(tool.docs, "This is a test tool");
}

#[test]
fn test_parse_tool_method_not_async() {
    let m = method("test_tool", true, false, tool_params(), &[]);
    let result = parse_tool_method(&m);
    assert!(result.is_err());
    assert!(result.unwrap_err().contains("must be async"));
}

#[test]
fn test_parse_tool_method_wrong_params() {
    let m = method("test_tool", true, true, vec![Param::Receiver], &[]);
    let result = parse_tool_method(&m);
    assert!(result.is_err());
    assert!(result.unwrap_err().contains("exactly 3 parameters"));
}

#[test]
fn test_parse_tool_method_both_self_types() {
    // `&self` and `&mut self` are both a receiver.
    let m1 = method("test_tool", true, true, tool_params(), &[]);
    assert!(parse_tool_method(&m1).unwrap().is_some());
    let m2 = method("test_tool", true, true, tool_params(), &[]);
    assert!(parse_tool_method(&m2).unwrap().is_some());
}

#[test]
fn test_parse_impl_block() {
    let methods = vec![
        method("echo", true, true, tool_params(), &[" Echo tool"]),
        method("ping", true, true, tool_params(), &[]),
        method("helper", false, true, vec![Param::Receiver], &[]),
    ];
    let info = parse_impl_block(
        &SelfType::Path(vec!["TestServer".to_string()]),
        &vec![" Test server implementation".to_string()],
        &methods,
    )
    .unwrap();
    assert_eq!(info.struct_name, "TestServer");
    assert_eq!(info.description, "Test server implementation");
    assert_eq!(info.tools.len(), 2);
    assert_eq!(info.tools[0].name, "echo");
    assert_eq!(info.tools[0].docs, "Echo tool");
    assert_eq!(info.tools[1].name, "ping");
}

#[test]
fn test_generate_call_tool() {
    let info = ServerInfo {
        struct_name: "TestServer".to_string(),
        description: "Test description".to_string(),
        tools: vec![
            ToolMethod { name: "echo".to_string(), docs: "Echo tool".to_string(), params_type: "EchoParams".to_string() },
            ToolMethod { name: "ping".to_string(), docs: "Ping tool".to_string(), params_type: "PingParams".to_string() },
        ],
    };
    assert!(matches!(dispatch_tool(&info.tools, "echo", Some(Arguments::new())), Ok((0, _))));
    assert!(matches!(dispatch_tool(&info.tools, "ping", Some(Arguments::new())), Ok((1, _))));
}

#[test]
fn test_generate_list_tools() {
    let info = ServerInfo {
        struct_name: "TestServer".to_string(),
        description: "Test description".to_string(),
        tools: vec![ToolMethod {
            name: "echo".to_string(),
            docs: "Echo tool".to_string(),
            params_type: "EchoParams".to_string(),
        }],
    };
    let listing = tool_listing(&info.tools, vec![ToolSchema::default()]);
    assert_eq!(listing.tools.len(), 1);
    assert_eq!(listing.tools[0].name, "echo");
    assert_eq!(listing.tools[0].description, Some("Echo tool".to_string()));
}

#[test]
fn test_full_macro_expansion() {
    let methods = echo_server_methods();
    let info = parse_impl_block(
        &SelfType::Path(vec!["TestServer".to_string()]),
        &vec![" Test server".to_string()],
        &methods,
    )
    .unwrap();
    assert!(check_server(&info, &methods, None).is_ok());
    let init = default_initialize_result(&info);
    assert_eq!(init.server_info.name, "test_server");
    assert_eq!(init.instructions, Some("Test server".to_string()));
}

#[test]
fn test_no_tools_error() {
    let methods = vec![method("helper", false, true, vec![Param::Receiver], &[])];
    let info = parse_impl_block(&SelfType::Path(vec!["TestServer".to_string()]), &vec![], &methods).unwrap();
    let result = check_server(&info, &methods, None);
    assert!(result.is_err());
    assert!(result.unwrap_err().contains("No tool methods found"));
}

#[test]
fn test_empty_description_no_instructions() {
    let methods = echo_server_methods();
    let info = parse_impl_block(&SelfType::Path(vec!["TestServer".to_string()]), &vec![], &methods).unwrap();
    let init = default_initialize_result(&info);
    assert!(init.instructions.is_none());
    assert_eq!(init.server_info.name, "test_server");
    assert_eq!(init.server_info.version, "0.1.0");
    assert!(init.capabilities.tools.is_some());
}
