//! Tools a server exposes and the results of calling them.
use vstd::prelude::*;

use crate::json::JsonValue;
use crate::map::{insert_into, opt_get, opt_wf, StrMap};
use crate::schema::content::{Content, TextContent};
use crate::schema::jsonrpc::Cursor;
use crate::text::texts;

verus! {

/// The server's response to a tools/list request.
#[derive(Debug)]
pub struct ListToolsResult {
    pub tools: Vec<Tool>,
    /// The pagination position after the last returned result.
    pub next_cursor: Option<Cursor>,
}

impl Default for ListToolsResult {
    fn default() -> (r: ListToolsResult)
        ensures
            r.tools@.len() == 0,
            r.next_cursor is None,
    {
        ListToolsResult::new()
    }
}

impl ListToolsResult {
    /// Creates an empty result.
    pub fn new() -> (r: ListToolsResult)
        ensures
            r.tools@.len() == 0,
            r.next_cursor is None,
    {
        ListToolsResult { tools: Vec::new(), next_cursor: None }
    }

    /// Adds a tool to the list.
    pub fn with_tool(self, tool: Tool) -> (r: ListToolsResult)
        ensures
            r.tools@ == self.tools@.push(tool),
            r.next_cursor == self.next_cursor,
    {
        let mut v = self.tools;
        v.push(tool);
        ListToolsResult { tools: v, next_cursor: self.next_cursor }
    }

    /// Adds several tools to the list, in order.
    pub fn with_tools(self, tools: Vec<Tool>) -> (r: ListToolsResult)
        ensures
            r.tools@ == self.tools@ + tools@,
            r.next_cursor == self.next_cursor,
    {
        let mut v = self.tools;
        let mut more = tools;
        v.append(&mut more);
        ListToolsResult { tools: v, next_cursor: self.next_cursor }
    }

    /// Sets the pagination cursor.
    pub fn with_cursor(self, cursor: &str) -> (r: ListToolsResult)
        ensures
            r.tools == self.tools,
            r.next_cursor matches Some(c) && c.0@ == cursor@,
    {
        ListToolsResult { tools: self.tools, next_cursor: Some(Cursor::new(cursor)) }
    }
}

/// The server's response to a tool call.
#[derive(Debug)]
pub struct CallToolResult {
    pub content: Vec<Content>,
    /// Whether the tool call ended in an error; absent means it did not.
    pub is_error: Option<bool>,
    /// Optional structured content representing the tool's output.
    pub structured_content: Option<JsonValue>,
    /// Reserved metadata.
    pub _meta: Option<StrMap<JsonValue>>,
}

impl Default for CallToolResult {
    fn default() -> (r: CallToolResult)
        ensures
            r.content@.len() == 0,
            r.is_error is None,
            r.structured_content is None,
            r._meta is None,
    {
        CallToolResult::new()
    }
}

impl CallToolResult {
    /// Creates a result with no content.
    pub fn new() -> (r: CallToolResult)
        ensures
            r.content@.len() == 0,
            r.is_error is None,
            r.structured_content is None,
            r._meta is None,
    {
        CallToolResult { content: Vec::new(), is_error: None, structured_content: None, _meta: None }
    }

    /// Adds content.
    pub fn with_content(self, content: Content) -> (r: CallToolResult)
        ensures
            r.content@ == self.content@.push(content),
            r.is_error == self.is_error,
            r.structured_content == self.structured_content,
            r._meta == self._meta,
    {
        let mut v = self.content;
        v.push(content);
        CallToolResult { content: v, ..self }
    }

    /// Adds a text content block.
    pub fn with_text_content(self, text: &str) -> (r: CallToolResult)
        ensures
            r.content@.len() == self.content@.len() + 1,
            r.content@.subrange(0, self.content@.len() as int) == self.content@,
            r.content@.last() matches Content::Text(t) && t.text@ == text@ && t.annotations is None
                && t._meta is None,
            r.is_error == self.is_error,
            r.structured_content == self.structured_content,
            r._meta == self._meta,
    {
        let r = self.with_content(
            Content::Text(TextContent { text: text.to_string(), annotations: None, _meta: None }),
        );
        assert(r.content@.subrange(0, r.content@.len() - 1) =~= self.content@);
        r
    }

    /// Sets the error flag.
    pub fn is_error(self, is_error: bool) -> (r: CallToolResult)
        ensures
            r.is_error == Some(is_error),
            r.content == self.content,
            r.structured_content == self.structured_content,
            r._meta == self._meta,
    {
        CallToolResult { is_error: Some(is_error), ..self }
    }

    /// Sets the structured content.
    pub fn with_structured_content(self, content: JsonValue) -> (r: CallToolResult)
        ensures
            r.structured_content == Some(content),
            r.content == self.content,
            r.is_error == self.is_error,
            r._meta == self._meta,
    {
        CallToolResult { structured_content: Some(content), ..self }
    }

    /// Sets the metadata.
    pub fn with_meta(self, meta: StrMap<JsonValue>) -> (r: CallToolResult)
        ensures
            r._meta == Some(meta),
            r.content == self.content,
            r.is_error == self.is_error,
            r.structured_content == self.structured_content,
    {
        CallToolResult { _meta: Some(meta), ..self }
    }

    /// Adds a single metadata entry.
    pub fn with_meta_entry(self, key: &str, value: JsonValue) -> (r: CallToolResult)
        requires
            opt_wf(self._meta),
        ensures
            r._meta matches Some(m) && m.wf() && m.spec_get(key@) == Some(value),
            forall|k: Seq<char>| k != key@ ==> #[trigger] opt_get(r._meta, k) == opt_get(self._meta, k),
            r.content == self.content,
            r.is_error == self.is_error,
            r.structured_content == self.structured_content,
    {
        let m = insert_into(self._meta, key, value);
        CallToolResult {
            content: self.content,
            is_error: self.is_error,
            structured_content: self.structured_content,
            _meta: Some(m),
        }
    }
}

/// Additional properties describing a tool to clients; all of them are hints.
#[derive(Debug, Clone)]
pub struct ToolAnnotations {
    /// A human-readable title for the tool.
    pub title: Option<String>,
    /// If true, the tool does not modify its environment.
    pub read_only_hint: Option<bool>,
    /// If true, the tool may perform destructive updates.
    pub destructive_hint: Option<bool>,
    /// If true, repeated calls with the same arguments have no additional effect.
    pub idempotent_hint: Option<bool>,
    /// If true, the tool may interact with an open world of external entities.
    pub open_world_hint: Option<bool>,
}

impl Default for ToolAnnotations {
    fn default() -> (r: ToolAnnotations)
        ensures
            r.title is None,
            r.read_only_hint is None,
            r.destructive_hint is None,
            r.idempotent_hint is None,
            r.open_world_hint is None,
    {
        ToolAnnotations {
            title: None,
            read_only_hint: None,
            destructive_hint: None,
            idempotent_hint: None,
            open_world_hint: None,
        }
    }
}

/// The annotations of a tool, or empty ones when it has none.
pub open spec fn annotations_or_empty(a: Option<ToolAnnotations>) -> ToolAnnotations {
    match a {
        Some(a) => a,
        None => ToolAnnotations {
            title: None,
            read_only_hint: None,
            destructive_hint: None,
            idempotent_hint: None,
            open_world_hint: None,
        },
    }
}

fn annotations_of(a: Option<ToolAnnotations>) -> (r: ToolAnnotations)
    ensures
        r == annotations_or_empty(a),
{
    match a {
        Some(a) => a,
        None => ToolAnnotations::default(),
    }
}

/// Law: a tool's existing annotations are kept as they are, and a tool
/// without annotations starts from empty ones.
pub proof fn law_existing_annotations_are_kept(a: ToolAnnotations)
    ensures
        annotations_or_empty(Some(a)) == a,
        annotations_or_empty(None).title is None && annotations_or_empty(None).read_only_hint is None
            && annotations_or_empty(None).destructive_hint is None && annotations_or_empty(
            None,
        ).idempotent_hint is None && annotations_or_empty(None).open_world_hint is None,
{
}

/// Law: setting one hint keeps the hints set before it. After
/// `with_read_only_hint(read_only)` and then `with_destructive_hint(destructive)`,
/// the tool has both hints, and its other annotation fields are those it had.
pub proof fn law_hints_accumulate(
    before: Tool,
    after_read_only: Tool,
    after_destructive: Tool,
    read_only: bool,
    destructive: bool,
)
    requires
        after_read_only.annotations == Some(
            ToolAnnotations {
                read_only_hint: Some(read_only),
                ..annotations_or_empty(before.annotations)
            },
        ),
        after_destructive.annotations == Some(
            ToolAnnotations {
                destructive_hint: Some(destructive),
                ..annotations_or_empty(after_read_only.annotations)
            },
        ),
    ensures
        after_destructive.annotations matches Some(a) && a.read_only_hint == Some(read_only)
            && a.destructive_hint == Some(destructive) && a.title == match before.annotations {
            Some(b) => b.title,
            None => None,
        } && a.idempotent_hint == match before.annotations {
            Some(b) => b.idempotent_hint,
            None => None,
        } && a.open_world_hint == match before.annotations {
            Some(b) => b.open_world_hint,
            None => None,
        },
{
}

/// Definition for a tool the client can call.
#[derive(Debug)]
pub struct Tool {
    /// The name of the tool.
    pub name: String,
    /// A JSON Schema object defining the expected parameters.
    pub input_schema: ToolSchema,
    pub description: Option<String>,
    pub title: Option<String>,
    /// A JSON Schema object defining the expected output.
    pub output_schema: Option<ToolSchema>,
    /// Optional additional tool information.
    pub annotations: Option<ToolAnnotations>,
    /// Reserved metadata.
    pub _meta: Option<StrMap<JsonValue>>,
}

impl Tool {
    /// Creates a tool with a name and input schema.
    pub fn new(name: &str, input_schema: ToolSchema) -> (r: Tool)
        ensures
            r.name@ == name@,
            r.input_schema == input_schema,
            r.description is None,
            r.title is None,
            r.output_schema is None,
            r.annotations is None,
            r._meta is None,
    {
        Tool {
            name: name.to_string(),
            input_schema,
            description: None,
            title: None,
            output_schema: None,
            annotations: None,
            _meta: None,
        }
    }

    /// Sets the description.
    pub fn with_description(self, description: &str) -> (r: Tool)
        ensures
            r.description matches Some(d) && d@ == description@,
            r.name == self.name && r.input_schema == self.input_schema && r.title == self.title
                && r.output_schema == self.output_schema && r.annotations == self.annotations
                && r._meta == self._meta,
    {
        Tool { description: Some(description.to_string()), ..self }
    }

    /// Sets the title.
    pub fn with_title(self, title: &str) -> (r: Tool)
        ensures
            r.title matches Some(t) && t@ == title@,
            r.name == self.name && r.input_schema == self.input_schema && r.description
                == self.description && r.output_schema == self.output_schema && r.annotations
                == self.annotations && r._meta == self._meta,
    {
        Tool { title: Some(title.to_string()), ..self }
    }

    /// Sets the output schema.
    pub fn with_output_schema(self, schema: ToolSchema) -> (r: Tool)
        ensures
            r.output_schema == Some(schema),
            r.name == self.name && r.input_schema == self.input_schema && r.description
                == self.description && r.title == self.title && r.annotations == self.annotations
                && r._meta == self._meta,
    {
        Tool { output_schema: Some(schema), ..self }
    }

    /// Sets the title annotation (distinct from the tool's own title).
    pub fn with_annotation_title(self, title: &str) -> (r: Tool)
        ensures
            r.annotations == Some(
                ToolAnnotations {
                    title: r.annotations.unwrap().title,
                    ..annotations_or_empty(self.annotations)
                },
            ),
            r.annotations.unwrap().title matches Some(t) && t@ == title@,
            r.name == self.name && r.input_schema == self.input_schema && r.description
                == self.description && r.title == self.title && r.output_schema
                == self.output_schema && r._meta == self._meta,
    {
        let a = annotations_of(self.annotations);
        Tool { annotations: Some(ToolAnnotations { title: Some(title.to_string()), ..a }), ..self }
    }

    /// Sets the read-only hint.
    pub fn with_read_only_hint(self, read_only: bool) -> (r: Tool)
        ensures
            r.annotations == Some(
                ToolAnnotations {
                    read_only_hint: Some(read_only),
                    ..annotations_or_empty(self.annotations)
                },
            ),
            r.name == self.name && r.input_schema == self.input_schema && r.description
                == self.description && r.title == self.title && r.output_schema
                == self.output_schema && r._meta == self._meta,
    {
        let a = annotations_of(self.annotations);
        Tool { annotations: Some(ToolAnnotations { read_only_hint: Some(read_only), ..a }), ..self }
    }

    /// Sets the destructive hint.
    pub fn with_destructive_hint(self, destructive: bool) -> (r: Tool)
        ensures
            r.annotations == Some(
                ToolAnnotations {
                    destructive_hint: Some(destructive),
                    ..annotations_or_empty(self.annotations)
                },
            ),
            r.name == self.name && r.input_schema == self.input_schema && r.description
                == self.description && r.title == self.title && r.output_schema
                == self.output_schema && r._meta == self._meta,
    {
        let a = annotations_of(self.annotations);
        Tool {
            annotations: Some(ToolAnnotations { destructive_hint: Some(destructive), ..a }),
            ..self
        }
    }

    /// Sets the idempotent hint.
    pub fn with_idempotent_hint(self, idempotent: bool) -> (r: Tool)
        ensures
            r.annotations == Some(
                ToolAnnotations {
                    idempotent_hint: Some(idempotent),
                    ..annotations_or_empty(self.annotations)
                },
            ),
            r.name == self.name && r.input_schema == self.input_schema && r.description
                == self.description && r.title == self.title && r.output_schema
                == self.output_schema && r._meta == self._meta,
    {
        let a = annotations_of(self.annotations);
        Tool {
            annotations: Some(ToolAnnotations { idempotent_hint: Some(idempotent), ..a }),
            ..self
        }
    }

    /// Sets the open-world hint.
    pub fn with_open_world_hint(self, open_world: bool) -> (r: Tool)
        ensures
            r.annotations == Some(
                ToolAnnotations {
                    open_world_hint: Some(open_world),
                    ..annotations_or_empty(self.annotations)
                },
            ),
            r.name == self.name && r.input_schema == self.input_schema && r.description
                == self.description && r.title == self.title && r.output_schema
                == self.output_schema && r._meta == self._meta,
    {
        let a = annotations_of(self.annotations);
        Tool {
            annotations: Some(ToolAnnotations { open_world_hint: Some(open_world), ..a }),
            ..self
        }
    }

    /// Sets all annotations at once.
    pub fn with_annotations(self, annotations: ToolAnnotations) -> (r: Tool)
        ensures
            r.annotations == Some(annotations),
            r.name == self.name && r.input_schema == self.input_schema && r.description
                == self.description && r.title == self.title && r.output_schema
                == self.output_schema && r._meta == self._meta,
    {
        Tool { annotations: Some(annotations), ..self }
    }
}

/// A JSON Schema object describing a tool's input or output.
#[derive(Debug)]
pub struct ToolSchema {
    /// The schema's type; "object" for tool inputs.
    pub schema_type: String,
    pub properties: Option<StrMap<JsonValue>>,
    pub required: Option<Vec<String>>,
}

/// The schema of a tool's input.
pub type ToolInputSchema = ToolSchema;

/// The schema of a tool's output.
pub type ToolOutputSchema = ToolSchema;

/// The texts of the JSON strings in `a`, in order; other values are skipped.
pub open spec fn strings_in(a: Seq<JsonValue>) -> Seq<Seq<char>>
    decreases a.len(),
{
    if a.len() == 0 {
        Seq::empty()
    } else {
        let rest = strings_in(a.drop_last());
        match a.last() {
            JsonValue::String(s) => rest.push(s@),
            _ => rest,
        }
    }
}

impl Default for ToolSchema {
    fn default() -> (r: ToolSchema)
        ensures
            r.schema_type@ == "object"@,
            r.properties is None,
            r.required is None,
    {
        ToolSchema { schema_type: "object".to_string(), properties: None, required: None }
    }
}

impl ToolSchema {
    /// Adds a property schema under `name`.
    pub fn with_property(self, name: &str, schema: JsonValue) -> (r: ToolSchema)
        requires
            opt_wf(self.properties),
        ensures
            r.properties matches Some(m) && m.wf() && m.spec_get(name@) == Some(schema),
            forall|k: Seq<char>|
                k != name@ ==> #[trigger] opt_get(r.properties, k) == opt_get(self.properties, k),
            r.schema_type == self.schema_type,
            r.required == self.required,
    {
        let m = insert_into(self.properties, name, schema);
        ToolSchema { schema_type: self.schema_type, properties: Some(m), required: self.required }
    }

    /// Replaces the property schemas.
    pub fn with_properties(self, properties: StrMap<JsonValue>) -> (r: ToolSchema)
        ensures
            r.properties == Some(properties),
            r.schema_type == self.schema_type,
            r.required == self.required,
    {
        ToolSchema { properties: Some(properties), ..self }
    }

    /// Marks a property as required.
    pub fn with_required(self, name: &str) -> (r: ToolSchema)
        ensures
            r.required matches Some(v) && texts(v@) == match self.required {
                Some(old) => texts(old@),
                None => Seq::empty(),
            }.push(name@),
            r.schema_type == self.schema_type,
            r.properties == self.properties,
    {
        let mut v = match self.required {
            Some(v) => v,
            None => Vec::new(),
        };
        let ghost before = v@;
        v.push(name.to_string());
        assert(texts(v@) =~= texts(before).push(name@));
        ToolSchema { schema_type: self.schema_type, properties: self.properties, required: Some(v) }
    }

    /// Marks several properties as required, in order.
    pub fn with_required_properties(self, names: Vec<String>) -> (r: ToolSchema)
        ensures
            r.required matches Some(v) && v@ == match self.required {
                Some(old) => old@,
                None => Seq::empty(),
            } + names@,
            r.schema_type == self.schema_type,
            r.properties == self.properties,
    {
        let mut v = match self.required {
            Some(v) => v,
            None => Vec::new(),
        };
        let mut more = names;
        v.append(&mut more);
        ToolSchema { schema_type: self.schema_type, properties: self.properties, required: Some(v) }
    }

    /// Builds a tool schema from a JSON Schema document: its "type" when that
    /// is a string ("object" otherwise), its "properties" when that is an
    /// object, and the strings among its "required" when that is an array.
    pub fn from_schema_value(schema: JsonValue) -> (r: ToolSchema)
        requires
            schema matches JsonValue::Object(m) ==> m.wf(),
        ensures
            match schema {
                JsonValue::Object(m) => {
                    &&& r.schema_type@ == match m.spec_get("type"@) {
                        Some(JsonValue::String(t)) => t@,
                        _ => "object"@,
                    }
                    &&& r.properties == match m.spec_get("properties"@) {
                        Some(JsonValue::Object(p)) => Some(p),
                        _ => None,
                    }
                    &&& match m.spec_get("required"@) {
                        Some(JsonValue::Array(a)) => r.required matches Some(v) && texts(v@)
                            == strings_in(a@),
                        _ => r.required is None,
                    }
                },
                _ => r.schema_type@ == "object"@ && r.properties is None && r.required is None,
            },
    {
        match schema {
            JsonValue::Object(m) => {
                let ghost m0 = m;
                let mut m = m;
                proof {
                    reveal_strlit("type");
                    reveal_strlit("properties");
                    reveal_strlit("required");
                }
                let t = m.remove("type");
                let ghost m1 = m;
                let p = m.remove("properties");
                let ghost m2 = m;
                let q = m.remove("required");
                assert("type"@.len() == 4);
                assert("properties"@.len() == 10);
                assert("properties"@ != "type"@);
                assert(m1.spec_get("properties"@) == m0.spec_get("properties"@));
                assert(p == m0.spec_get("properties"@));
                assert(m2.spec_get("required"@) == m1.spec_get("required"@));
                assert(q == m0.spec_get("required"@));
                assert(t == m0.spec_get("type"@));
                let schema_type = match t {
                    Some(JsonValue::String(s)) => s,
                    _ => "object".to_string(),
                };
                let properties = match p {
                    Some(JsonValue::Object(p)) => Some(p),
                    _ => None,
                };
                let required = match q {
                    Some(JsonValue::Array(a)) => Some(Self::strings_of(&a)),
                    _ => None,
                };
                ToolSchema { schema_type, properties, required }
            },
            _ => ToolSchema::default(),
        }
    }

    /// Copies the JSON strings of an array, in order.
    fn strings_of(a: &Vec<JsonValue>) -> (r: Vec<String>)
        ensures
            texts(r@) == strings_in(a@),
    {
        let mut r: Vec<String> = Vec::new();
        let mut i: usize = 0;
        while i < a.len()
            invariant
                i <= a@.len(),
                texts(r@) == strings_in(a@.take(i as int)),
            decreases a@.len() - i,
        {
            assert(a@.take(i + 1).drop_last() =~= a@.take(i as int));
            let ghost before = r@;
            match &a[i] {
                JsonValue::String(s) => {
                    r.push(s.clone());
                    assert(texts(r@) =~= texts(before).push(s@));
                },
                _ => {},
            }
            i = i + 1;
        }
        assert(a@.take(a@.len() as int) =~= a@);
        r
    }
}

} // verus!
