//! Deriving a server from an impl block: which methods are tools, the checks
//! each tool method and a custom initialize method must pass, the tool's
//! description taken from its doc comment, and the server's default
//! initialize result and tool dispatch.
use vstd::prelude::*;

use crate::arguments::Arguments;
use crate::error::Error;
use crate::schema::capabilities::ToolsCapability;
use crate::schema::initialization::InitializeResult;
use crate::schema::jsonrpc::LATEST_PROTOCOL_VERSION;
use crate::schema::tools::{ListToolsResult, Tool, ToolSchema};
use crate::text::{join2, join3, join_with, joined, same_text, texts, trim, trimmed};

verus! {

/// A parameter of a method.
#[derive(Debug, Clone)]
pub enum Param {
    /// `self`, `&self` or `&mut self`.
    Receiver,
    /// A named parameter with the text of its type.
    Typed { type_text: String },
}

/// A method of the impl block, as the derivation reads it.
#[derive(Debug, Clone)]
pub struct MethodSignature {
    pub name: String,
    /// Whether the method carries the `tool` attribute.
    pub is_tool: bool,
    /// The method's doc comment, one attribute per line, as written.
    pub doc_lines: Vec<String>,
    pub is_async: bool,
    pub params: Vec<Param>,
    /// Whether the method declares a return type.
    pub has_return_type: bool,
}

/// A tool method found in the impl block.
#[derive(Debug, Clone)]
pub struct ToolMethod {
    pub name: String,
    /// The tool's description: its doc comment.
    pub docs: String,
    /// The text of the tool's parameter type.
    pub params_type: String,
}

/// What the derivation learns of an impl block.
#[derive(Debug, Clone)]
pub struct ServerInfo {
    pub struct_name: String,
    /// The server's description: the impl block's doc comment.
    pub description: String,
    pub tools: Vec<ToolMethod>,
}

/// The doc lines that are kept, trimmed: those with text left after trimming.
pub open spec fn kept_doc_lines(lines: Seq<Seq<char>>) -> Seq<Seq<char>>
    decreases lines.len(),
{
    if lines.len() == 0 {
        Seq::empty()
    } else {
        let rest = kept_doc_lines(lines.drop_last());
        let t = trimmed(lines.last());
        if t.len() == 0 {
            rest
        } else {
            rest.push(t)
        }
    }
}

/// The text of a doc comment: its lines trimmed, blank ones dropped, joined
/// by line feeds.
pub open spec fn doc_text(lines: Seq<Seq<char>>) -> Seq<char> {
    joined(kept_doc_lines(lines), seq!['\n'])
}

/// The text of a doc comment (see `doc_text`).
pub fn extract_doc_comment(lines: &Vec<String>) -> (r: String)
    ensures
        r@ == doc_text(texts(lines@)),
{
    let ghost ls = texts(lines@);
    let mut kept: Vec<String> = Vec::new();
    let mut i: usize = 0;
    while i < lines.len()
        invariant
            i <= lines@.len(),
            ls == texts(lines@),
            texts(kept@) == kept_doc_lines(ls.take(i as int)),
        decreases lines@.len() - i,
    {
        let t = trim(lines[i].as_str());
        proof {
            assert(ls.take(i + 1).drop_last() =~= ls.take(i as int));
            assert(ls.take(i + 1).last() == lines@[i as int]@);
        }
        if t.unicode_len() > 0 {
            kept.push(t);
            proof {
                assert(texts(kept@) =~= kept_doc_lines(ls.take(i + 1)));
            }
        }
        i = i + 1;
    }
    proof {
        assert(ls.take(lines@.len() as int) =~= ls);
        reveal_strlit("\n");
        assert("\n"@ =~= seq!['\n']);
    }
    join_with(&kept, "\n")
}

/// Whether a parameter is a receiver.
pub open spec fn is_receiver(p: Param) -> bool {
    p is Receiver
}

/// The outcome of reading a method as a tool: nothing when it is no tool,
/// the tool when it passes the checks, the first failed check otherwise.
pub open spec fn tool_method_outcome(m: MethodSignature) -> Option<Result<(), Seq<char>>> {
    if !m.is_tool {
        None
    } else if !m.is_async {
        Some(Err("tool methods must be async"@))
    } else if m.params@.len() != 3 {
        Some(
            Err(
                "tool methods must have exactly 3 parameters: &self, context: &ServerCtx, params: ParamsType"@,
            ),
        )
    } else if !is_receiver(m.params@[0]) {
        Some(Err("first parameter must be &self or &mut self"@))
    } else if is_receiver(m.params@[2]) {
        Some(Err("third parameter must be a typed parameter"@))
    } else if !m.has_return_type {
        Some(Err("tool methods must return Result<schema::CallToolResult>"@))
    } else {
        Some(Ok(()))
    }
}

/// Whether `t` is the tool read from the method `m`.
pub open spec fn is_tool_of(t: ToolMethod, m: MethodSignature) -> bool {
    &&& t.name == m.name
    &&& t.docs@ == doc_text(texts(m.doc_lines@))
    &&& m.params@.len() == 3
    &&& m.params@[2] matches Param::Typed { type_text } && t.params_type == type_text
}

/// Reads a method as a tool (see `tool_method_outcome`).
pub fn parse_tool_method(m: &MethodSignature) -> (r: Result<Option<ToolMethod>, String>)
    ensures
        match tool_method_outcome(*m) {
            None => r == Ok::<Option<ToolMethod>, String>(None),
            Some(Ok(())) => r matches Ok(Some(t)) && is_tool_of(t, *m),
            Some(Err(e)) => r matches Err(s) && s@ == e,
        },
{
    if !m.is_tool {
        return Ok(None);
    }
    if !m.is_async {
        return Err("tool methods must be async".to_string());
    }
    if m.params.len() != 3 {
        return Err(
            "tool methods must have exactly 3 parameters: &self, context: &ServerCtx, params: ParamsType".to_string(),
        );
    }
    match &m.params[0] {
        Param::Receiver => {},
        _ => {
            return Err("first parameter must be &self or &mut self".to_string());
        },
    }
    let params_type = match &m.params[2] {
        Param::Typed { type_text } => type_text.clone(),
        Param::Receiver => {
            return Err("third parameter must be a typed parameter".to_string());
        },
    };
    if !m.has_return_type {
        return Err("tool methods must return Result<schema::CallToolResult>".to_string());
    }
    Ok(Some(ToolMethod { name: m.name.clone(), docs: extract_doc_comment(&m.doc_lines), params_type }))
}

/// The type an impl block is for.
#[derive(Debug, Clone)]
pub enum SelfType {
    /// A path, by its segments.
    Path(Vec<String>),
    /// Anything else.
    Other,
}

/// Where the tools of a list of methods come from: the outcome of each method in turn.
pub open spec fn tools_outcome(methods: Seq<MethodSignature>) -> Result<Seq<MethodSignature>, Seq<char>>
    decreases methods.len(),
{
    if methods.len() == 0 {
        Ok(Seq::empty())
    } else {
        match tools_outcome(methods.drop_last()) {
            Err(e) => Err(e),
            Ok(ts) => match tool_method_outcome(methods.last()) {
                None => Ok(ts),
                Some(Ok(())) => Ok(ts.push(methods.last())),
                Some(Err(e)) => Err(e),
            },
        }
    }
}

/// The tools of an impl block's methods, in order, or the first failed check.
pub fn collect_tools(methods: &Vec<MethodSignature>) -> (r: Result<Vec<ToolMethod>, String>)
    ensures
        match tools_outcome(methods@) {
            Ok(ms) => r matches Ok(ts) && ts@.len() == ms.len() && forall|i: int|
                0 <= i < ms.len() ==> is_tool_of(#[trigger] ts@[i], ms[i]),
            Err(e) => r matches Err(s) && s@ == e,
        },
{
    let mut tools: Vec<ToolMethod> = Vec::new();
    let mut i: usize = 0;
    while i < methods.len()
        invariant
            i <= methods@.len(),
            tools_outcome(methods@.take(i as int)) matches Ok(ms) && tools@.len() == ms.len()
                && forall|k: int| 0 <= k < ms.len() ==> is_tool_of(#[trigger] tools@[k], ms[k]),
        decreases methods@.len() - i,
    {
        proof {
            assert(methods@.take(i + 1).drop_last() =~= methods@.take(i as int));
            assert(methods@.take(i + 1).last() == methods@[i as int]);
        }
        match parse_tool_method(&methods[i]) {
            Ok(Some(t)) => {
                tools.push(t);
            },
            Ok(None) => {},
            Err(e) => {
                proof {
                    assert(tools_outcome(methods@.take(i + 1)) is Err);
                    lemma_tools_outcome_err(methods@, i as int + 1);
                    assert(methods@.take(methods@.len() as int) =~= methods@);
                }
                return Err(e);
            },
        }
        i = i + 1;
    }
    proof {
        assert(methods@.take(methods@.len() as int) =~= methods@);
    }
    Ok(tools)
}

/// Once reading the methods fails, it fails with the same error for every
/// longer prefix.
proof fn lemma_tools_outcome_err(methods: Seq<MethodSignature>, k: int)
    requires
        0 <= k <= methods.len(),
        tools_outcome(methods.take(k)) is Err,
    ensures
        tools_outcome(methods) == tools_outcome(methods.take(k)),
    decreases methods.len() - k,
{
    if k < methods.len() {
        let next = methods.take(k + 1);
        assert(next.drop_last() =~= methods.take(k));
        lemma_tools_outcome_err(methods, k + 1);
    } else {
        assert(methods.take(k) =~= methods);
    }
}

/// The name of the struct an impl block is for: the last segment of its
/// path; an error for anything but a path.
pub fn struct_name_of(self_type: &SelfType) -> (r: Result<String, String>)
    ensures
        match *self_type {
            SelfType::Path(segments) => if segments@.len() > 0 {
                r == Ok::<String, String>(segments@.last())
            } else {
                r matches Err(e) && e@ == "Invalid type name"@
            },
            SelfType::Other => r matches Err(e) && e@ == "Expected a struct or type name"@,
        },
{
    match self_type {
        SelfType::Path(segments) => {
            if segments.len() > 0 {
                Ok(segments[segments.len() - 1].clone())
            } else {
                Err("Invalid type name".to_string())
            }
        },
        SelfType::Other => Err("Expected a struct or type name".to_string()),
    }
}

/// Reads an impl block: the struct it is for, its description and its tools.
pub fn parse_impl_block(
    self_type: &SelfType,
    doc_lines: &Vec<String>,
    methods: &Vec<MethodSignature>,
) -> (r: Result<ServerInfo, String>)
    ensures
        match *self_type {
            SelfType::Path(segments) => segments@.len() == 0 ==> (r matches Err(e) && e@
                == "Invalid type name"@),
            SelfType::Other => r matches Err(e) && e@ == "Expected a struct or type name"@,
        },
        match *self_type {
            SelfType::Path(segments) => segments@.len() > 0 ==> match tools_outcome(methods@) {
                Ok(ms) => r matches Ok(info) && info.struct_name == segments@.last()
                    && info.description@ == doc_text(texts(doc_lines@)) && info.tools@.len()
                    == ms.len() && forall|i: int|
                    0 <= i < ms.len() ==> is_tool_of(#[trigger] info.tools@[i], ms[i]),
                Err(e) => r matches Err(s) && s@ == e,
            },
            SelfType::Other => true,
        },
{
    let struct_name = match struct_name_of(self_type) {
        Ok(n) => n,
        Err(e) => {
            return Err(e);
        },
    };
    let description = extract_doc_comment(doc_lines);
    match collect_tools(methods) {
        Ok(tools) => Ok(ServerInfo { struct_name, description, tools }),
        Err(e) => Err(e),
    }
}

/// The first method named `name`, if any.
pub open spec fn first_named(methods: Seq<MethodSignature>, name: Seq<char>) -> Option<int> {
    if exists|i: int| 0 <= i < methods.len() && methods[i].name@ == name {
        Some(
            choose|i: int|
                0 <= i < methods.len() && methods[i].name@ == name && forall|j: int|
                    0 <= j < i ==> methods[j].name@ != name,
        )
    } else {
        None
    }
}

/// The outcome of checking the custom initialize method `name`.
pub open spec fn custom_initialize_outcome(methods: Seq<MethodSignature>, name: Seq<char>) -> Result<
    (),
    Seq<char>,
> {
    match first_named(methods, name) {
        None => Err("Custom initialize function '"@ + name + "' not found in impl block"@),
        Some(i) => {
            let m = methods[i];
            if !m.is_async {
                Err("Custom initialize function must be async"@)
            } else if m.params@.len() != 5 {
                Err(
                    "Custom initialize function must have exactly 5 parameters: &self, context: &ServerCtx, protocol_version: String, capabilities: ClientCapabilities, client_info: Implementation"@,
                )
            } else if !is_receiver(m.params@[0]) {
                Err("First parameter must be &self"@)
            } else if !m.has_return_type {
                Err("Custom initialize function must return Result<InitializeResult>"@)
            } else {
                Ok(())
            }
        },
    }
}

/// Checks the custom initialize method `name` (see `custom_initialize_outcome`).
pub fn validate_custom_initialize_fn(methods: &Vec<MethodSignature>, name: &str) -> (r: Result<
    (),
    String,
>)
    ensures
        match custom_initialize_outcome(methods@, name@) {
            Ok(()) => r is Ok,
            Err(e) => r matches Err(s) && s@ == e,
        },
{
    let mut i: usize = 0;
    while i < methods.len()
        invariant
            i <= methods@.len(),
            forall|j: int| 0 <= j < i ==> methods@[j].name@ != name@,
        decreases methods@.len() - i,
    {
        if same_text(methods[i].name.as_str(), name) {
            proof {
                let k = choose|k: int|
                    0 <= k < methods@.len() && methods@[k].name@ == name@ && forall|j: int|
                        0 <= j < k ==> methods@[j].name@ != name@;
                if k < i {
                    assert(methods@[k].name@ != name@);
                } else if k > i {
                    assert(methods@[i as int].name@ != name@);
                }
            }
            let m = &methods[i];
            if !m.is_async {
                return Err("Custom initialize function must be async".to_string());
            }
            if m.params.len() != 5 {
                return Err(
                    "Custom initialize function must have exactly 5 parameters: &self, context: &ServerCtx, protocol_version: String, capabilities: ClientCapabilities, client_info: Implementation".to_string(),
                );
            }
            match &m.params[0] {
                Param::Receiver => {},
                _ => {
                    return Err("First parameter must be &self".to_string());
                },
            }
            if !m.has_return_type {
                return Err("Custom initialize function must return Result<InitializeResult>".to_string());
            }
            return Ok(());
        }
        i = i + 1;
    }
    Err(join3("Custom initialize function '", name, "' not found in impl block"))
}

/// The outcome of deriving a server: the impl block must hold at least one
/// tool, and a custom initialize method, when one is named, must pass its
/// checks.
pub fn check_server(info: &ServerInfo, methods: &Vec<MethodSignature>, initialize_fn: Option<&str>) -> (r:
    Result<(), String>)
    ensures
        info.tools@.len() == 0 ==> (r matches Err(e) && e@
            == "No tool methods found. Use #[tool] to mark methods as MCP tools"@),
        info.tools@.len() > 0 ==> match initialize_fn {
            None => r is Ok,
            Some(n) => match custom_initialize_outcome(methods@, n@) {
                Ok(()) => r is Ok,
                Err(e) => r matches Err(s) && s@ == e,
            },
        },
{
    if info.tools.len() == 0 {
        return Err("No tool methods found. Use #[tool] to mark methods as MCP tools".to_string());
    }
    match initialize_fn {
        None => Ok(()),
        Some(n) => validate_custom_initialize_fn(methods, n),
    }
}

/// The snake-case form of `name`, as `heck::ToSnakeCase::to_snake_case` writes it.
pub uninterp spec fn snake_case(name: Seq<char>) -> Seq<char>;

/// `name` in snake case (`heck::ToSnakeCase::to_snake_case`). The contract
/// ties the result to the name through `snake_case`; it does not state how
/// heck splits a name into words.
#[verifier::external_body]
fn to_snake_case(name: &str) -> (r: String)
    ensures
        r@ == snake_case(name@),
{
    heck::ToSnakeCase::to_snake_case(name)
}

/// The version a derived server reports.
pub const DERIVED_SERVER_VERSION: &'static str = "0.1.0";

/// The name a derived server reports: its struct's name in snake case.
pub fn server_name(struct_name: &str) -> (r: String)
    ensures
        r@ == snake_case(struct_name@),
{
    to_snake_case(struct_name)
}

/// The initialize result of a derived server: the latest protocol version,
/// named after its struct in snake case, at version 0.1.0, with the tools
/// capability (no list-changed notifications) and no other capability, and
/// with its description as instructions when it has one.
pub fn default_initialize_result(info: &ServerInfo) -> (r: InitializeResult)
    ensures
        r.protocol_version@ == LATEST_PROTOCOL_VERSION@,
        r.server_info.name@ == snake_case(info.struct_name@),
        r.server_info.version@ == DERIVED_SERVER_VERSION@,
        r.server_info.title is None,
        r.capabilities.tools == Some(ToolsCapability { list_changed: Some(false) }),
        r.capabilities.experimental is None && r.capabilities.logging is None
            && r.capabilities.completions is None && r.capabilities.prompts is None
            && r.capabilities.resources is None,
        r._meta is None,
        info.description@.len() == 0 ==> r.instructions is None,
        info.description@.len() > 0 ==> (r.instructions matches Some(i) && i@
            == info.description@),
{
    let name = server_name(info.struct_name.as_str());
    let result = InitializeResult::new(name.as_str()).with_version(DERIVED_SERVER_VERSION).with_tools(
        false,
    );
    if info.description.unicode_len() == 0 {
        result
    } else {
        result.with_instructions(info.description.as_str())
    }
}

/// Whether `t` is the listing entry of the tool `m` with input schema `schema`.
pub open spec fn is_listed_tool(t: Tool, m: ToolMethod, schema: ToolSchema) -> bool {
    &&& t.name@ == m.name@
    &&& t.input_schema == schema
    &&& t.description matches Some(d) && d@ == m.docs@
    &&& t.title is None
    &&& t.output_schema is None
    &&& t.annotations is None
    &&& t._meta is None
}

/// The tools list of a derived server: each tool by name, with the input
/// schema of its parameter type (`schemas`, in the same order) and its doc
/// comment as description.
pub fn tool_listing(tools: &Vec<ToolMethod>, schemas: Vec<ToolSchema>) -> (r: ListToolsResult)
    requires
        schemas@.len() == tools@.len(),
    ensures
        r.tools@.len() == tools@.len(),
        forall|i: int|
            0 <= i < tools@.len() ==> is_listed_tool(#[trigger] r.tools@[i], tools@[i], schemas@[i]),
        r.next_cursor is None,
{
    let ghost all = schemas@;
    let mut listed: Vec<Tool> = Vec::new();
    let mut rest = schemas;
    let mut i: usize = 0;
    while i < tools.len()
        invariant
            i <= tools@.len(),
            all.len() == tools@.len(),
            listed@.len() == i,
            rest@ == all.skip(i as int),
            forall|k: int| 0 <= k < i ==> is_listed_tool(#[trigger] listed@[k], tools@[k], all[k]),
        decreases tools@.len() - i,
    {
        let schema = rest.remove(0);
        assert(rest@ =~= all.skip(i + 1));
        let tool = Tool::new(tools[i].name.as_str(), schema).with_description(tools[i].docs.as_str());
        listed.push(tool);
        i = i + 1;
    }
    ListToolsResult { tools: listed, next_cursor: None }
}

/// The arguments of the server derivation, as `key = value` pairs: the name
/// of a custom initialize method (the last one given), or the first unknown
/// key.
pub fn parse_server_args(args: &Vec<(String, String)>) -> (r: Result<Option<String>, String>)
    ensures
        (forall|i: int| 0 <= i < args@.len() ==> (#[trigger] args@[i]).0@ == "initialize_fn"@)
            ==> (r matches Ok(o) && if args@.len() == 0 {
            o is None
        } else {
            o matches Some(n) && n@ == args@.last().1@
        }),
        !(forall|i: int| 0 <= i < args@.len() ==> (#[trigger] args@[i]).0@ == "initialize_fn"@)
            ==> (r matches Err(e) && exists|i: int|
            0 <= i < args@.len() && e@ == "Unknown argument: "@ + (#[trigger] args@[i]).0@ && args@[i].0@
                != "initialize_fn"@ && forall|k: int| 0 <= k < i ==> (#[trigger] args@[k]).0@
                == "initialize_fn"@),
{
    let mut found: Option<String> = None;
    let mut i: usize = 0;
    while i < args.len()
        invariant
            i <= args@.len(),
            forall|k: int| 0 <= k < i ==> (#[trigger] args@[k]).0@ == "initialize_fn"@,
            i == 0 ==> found is None,
            i > 0 ==> (found matches Some(n) && n@ == args@[i - 1].1@),
        decreases args@.len() - i,
    {
        if !same_text(args[i].0.as_str(), "initialize_fn") {
            return Err(join2("Unknown argument: ", args[i].0.as_str()));
        }
        found = Some(args[i].1.clone());
        i = i + 1;
    }
    Ok(found)
}

/// Where a derived server sends a tool call: the position of the tool named
/// `name` with the call's arguments; an unknown tool, or a call without
/// arguments, is refused.
pub fn dispatch_tool(tools: &Vec<ToolMethod>, name: &str, arguments: Option<Arguments>) -> (r:
    Result<(usize, Arguments), Error>)
    ensures
        match r {
            Ok((i, args)) => i < tools@.len() && tools@[i as int].name@ == name@ && (forall|j: int|
                0 <= j < i ==> tools@[j].name@ != name@) && arguments == Some(args),
            Err(Error::MethodNotFound(m)) => m@ == "Unknown tool: "@ + name@ && forall|j: int|
                0 <= j < tools@.len() ==> tools@[j].name@ != name@,
            Err(Error::InvalidParams(m)) => m@ == "Missing arguments"@ && arguments is None
                && exists|j: int| 0 <= j < tools@.len() && tools@[j].name@ == name@,
            Err(_) => false,
        },
{
    let mut i: usize = 0;
    while i < tools.len()
        invariant
            i <= tools@.len(),
            forall|j: int| 0 <= j < i ==> tools@[j].name@ != name@,
        decreases tools@.len() - i,
    {
        if same_text(tools[i].name.as_str(), name) {
            return match arguments {
                Some(args) => Ok((i, args)),
                None => Err(Error::InvalidParams("Missing arguments".to_string())),
            };
        }
        i = i + 1;
    }
    Err(Error::MethodNotFound(join2("Unknown tool: ", name)))
}

} // verus!
