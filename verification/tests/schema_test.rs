use tenx_mcp::json::{JsonNumber, JsonValue};
use tenx_mcp::map::StrMap;
use tenx_mcp::schema::ToolSchema;

fn object(entries: Vec<(&str, JsonValue)>) -> JsonValue {
    let mut m = StrMap::new();
    for (k, v) in entries {
        m.insert(k.to_string(), v);
    }
    JsonValue::Object(m)
}

fn text(s: &str) -> JsonValue {
    JsonValue::String(s.to_string())
}

/// The JSON Schema document that schemars writes for
/// `struct TestInput { name: String, age: u32, email: Option<String> }`.
fn test_input_schema() -> JsonValue {
    object(vec![
        ("$schema", text("https://json-schema.org/draft/2020-12/schema")),
        ("title", text("TestInput")),
        ("type", text("object")),
        (
            "properties",
            object(vec![
                ("name", object(vec![("type", text("string"))])),
                (
                    "age",
                    object(vec![
                        ("type", text("integer")),
                        ("format", text("uint32")),
                        ("minimum", JsonValue::Number(JsonNumber::PosInt(0))),
                    ]),
                ),
                (
                    "email",
                    object(vec![("type", JsonValue::Array(vec![text("string"), text("null")]))]),
                ),
            ]),
        ),
        ("required", JsonValue::Array(vec![text("name"), text("age")])),
    ])
}

/// The JSON Schema document that schemars writes for
/// `struct ComplexInput { id: i64, tags: Vec<String>, metadata: HashMap<String, String> }`.
fn complex_input_schema() -> JsonValue {
    object(vec![
        ("$schema", text("https://json-schema.org/draft/2020-12/schema")),
        ("title", text("ComplexInput")),
        ("type", text("object")),
        (
            "properties",
            object(vec![
                ("id", object(vec![("type", text("integer")), ("format", text("int64"))])),
                (
                    "tags",
                    object(vec![("type", text("array")), ("items", object(vec![("type", text("string"))]))]),
                ),
                (
                    "metadata",
                    object(vec![
                        ("type", text("object")),
                        ("additionalProperties", object(vec![("type", text("string"))])),
                    ]),
                ),
            ]),
        ),
        ("required", JsonValue::Array(vec![text("id"), text("tags"), text("metadata")])),
    ])
}

fn check_tool_input_schema() {
    let schema = ToolSchema::from_schema_value(test_input_schema());

    assert_eq!(schema.schema_type, "object");

    let properties = schema.properties.expect("Should have properties");
    assert!(properties.contains_key("name"));
    assert!(properties.contains_key("age"));
    assert!(properties.contains_key("email"));

    let required = schema.required.expect("Should have required fields");
    assert!(required.contains(&"name".to_string()));
    assert!(required.contains(&"age".to_string()));
    assert!(!required.contains(&"email".to_string()));
}

fn check_complex_schema() {
    let schema = ToolSchema::from_schema_value(complex_input_schema());

    assert_eq!(schema.schema_type, "object");

    let properties = schema.properties.expect("Should have properties");
    assert!(properties.contains_key("id"));
    assert!(properties.contains_key("tags"));
    assert!(properties.contains_key("metadata"));

    // Verify array type for tags
    let tags_schema = properties.get("tags").unwrap();
    assert_eq!(tags_schema.get("type").and_then(|v| v.as_str()), Some("array"));

    // Verify object type for metadata
    let metadata_schema = properties.get("metadata").unwrap();
    assert_eq!(metadata_schema.get("type").and_then(|v| v.as_str()), Some("object"));
}

#[test]
fn requests_test_tool_input_schema_from_json_schema() {
    check_tool_input_schema();
}

#[test]
fn schema_test_tool_input_schema_from_json_schema() {
    check_tool_input_schema();
}

#[test]
fn requests_test_complex_schema_conversion() {
    check_complex_schema();
}

#[test]
fn schema_test_complex_schema_conversion() {
    check_complex_schema();
}

#[test]
fn schema_without_type_defaults_to_object() {
    let schema = ToolSchema::from_schema_value(object(vec![(
        "required",
        JsonValue::Array(vec![text("a"), JsonValue::Null, text("b")]),
    )]));
    assert_eq!(schema.schema_type, "object");
    assert!(schema.properties.is_none());
    assert_eq!(schema.required, Some(vec!["a".to_string(), "b".to_string()]));
}

#[test]
fn schema_from_non_object_is_empty_object_schema() {
    let schema = ToolSchema::from_schema_value(JsonValue::Bool(true));
    assert_eq!(schema.schema_type, "object");
    assert!(schema.properties.is_none());
    assert!(schema.required.is_none());
}
