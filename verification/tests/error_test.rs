use tenx_mcp::error::Error;
use tenx_mcp::schema::{
    RequestId, INTERNAL_ERROR, INVALID_PARAMS, INVALID_REQUEST, METHOD_NOT_FOUND, PARSE_ERROR,
};

fn all_errors() -> Vec<(Error, &'static str, Option<i32>)> {
    vec![
        (Error::Io { message: "disk".to_string() }, "IO error: disk", None),
        (Error::JsonParse { message: "eof".to_string() }, "JSON serialization error: eof", Some(PARSE_ERROR)),
        (Error::Transport("t".to_string()), "Transport error: t", None),
        (Error::TransportDisconnected, "Transport disconnected unexpectedly", None),
        (Error::Protocol("p".to_string()), "Protocol error: p", None),
        (Error::InvalidRequest("r".to_string()), "Invalid request: r", Some(INVALID_REQUEST)),
        (Error::MethodNotFound("m".to_string()), "Method not found: m", Some(METHOD_NOT_FOUND)),
        (Error::InvalidParams("x".to_string()), "Invalid parameters: x", Some(INVALID_PARAMS)),
        (Error::InternalError("i".to_string()), "Internal error: i", None),
        (Error::ConnectionClosed, "Connection closed", None),
        (Error::handler_error("prompt", "gone"), "Handler error for prompt: gone", None),
        (Error::ResourceNotFound { uri: "u".to_string() }, "Resource not found: u", None),
        (Error::tool_execution_failed("echo", "boom"), "Tool execution failed for 'echo': boom", None),
        (
            Error::InvalidMessageFormat { message: "f".to_string() },
            "Invalid message format: f",
            Some(PARSE_ERROR),
        ),
        (Error::ToolNotFound("t".to_string()), "Tool not found: t", Some(METHOD_NOT_FOUND)),
        (Error::InvalidConfiguration("c".to_string()), "Invalid configuration: c", None),
        (Error::AuthorizationFailed("a".to_string()), "Authorization failed: a", None),
        (Error::TransportError("e".to_string()), "Transport error: e", None),
    ]
}

#[test]
fn error_messages_and_codes() {
    for (e, text, code) in all_errors() {
        assert_eq!(e.message(), text);
        assert_eq!(e.specific_code(), code);
        match e.to_jsonrpc_response(RequestId::Number(5)) {
            Some(resp) => {
                assert_eq!(Some(resp.error.code), code);
                assert_eq!(resp.error.message, text);
                assert_eq!(resp.jsonrpc, "2.0");
                assert!(matches!(resp.id, RequestId::Number(5)));
            }
            None => assert!(code.is_none()),
        }
        let resp = e.to_error_response(RequestId::String("r".to_string()));
        assert_eq!(resp.error.code, code.unwrap_or(INTERNAL_ERROR));
        assert_eq!(resp.error.message, text);
        assert!(resp.error.data.is_none());
    }
}

#[test]
fn error_constructors() {
    assert!(matches!(
        Error::handler_error("prompt", "x"),
        Error::HandlerError { ref handler_type, ref message } if handler_type == "prompt" && message == "x"
    ));
    assert!(matches!(
        Error::tool_execution_failed("t", "m"),
        Error::ToolExecutionFailed { ref tool, ref message } if tool == "t" && message == "m"
    ));
}
