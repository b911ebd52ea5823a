//! What a connection answers when its implementer does not: the default
//! replies of the server-side and client-side handler methods.
use vstd::prelude::*;

use crate::error::Error;
use crate::schema::completions::{CompleteResult, CompletionInfo};
use crate::schema::roots::ListRootsResult;
use crate::text::join3;

verus! {

/// The default answer to a tool call: no such tool.
pub fn unknown_tool(name: String) -> (e: Error)
    ensures
        e matches Error::ToolExecutionFailed { tool, message } && tool == name && message@
            == "Tool not found"@,
{
    Error::ToolExecutionFailed { tool: name, message: "Tool not found".to_string() }
}

/// The default answer to reading a resource: no such resource.
pub fn unknown_resource(uri: String) -> (e: Error)
    ensures
        e == (Error::ResourceNotFound { uri }),
{
    Error::ResourceNotFound { uri }
}

/// The default answer to getting a prompt: no such prompt.
pub fn unknown_prompt(name: &str) -> (e: Error)
    ensures
        e matches Error::HandlerError { handler_type, message } && handler_type@ == "prompt"@
            && message@ == "Prompt '"@ + name@ + "' not found"@,
{
    Error::handler_error("prompt", join3("Prompt '", name, "' not found").as_str())
}

/// The default answer to a completion request: no values.
pub fn no_completions() -> (r: CompleteResult)
    ensures
        r.completion.values@.len() == 0,
        r.completion.total is None,
        r.completion.has_more is None,
        r._meta is None,
{
    CompleteResult {
        completion: CompletionInfo { values: Vec::new(), total: None, has_more: None },
        _meta: None,
    }
}

/// The default answer to a roots request: no roots.
pub fn no_roots() -> (r: ListRootsResult)
    ensures
        r.roots@.len() == 0,
        r._meta is None,
{
    ListRootsResult { roots: Vec::new(), _meta: None }
}

/// The default answer of a server asked to sample a message: it cannot.
pub fn sampling_unsupported() -> (e: Error)
    ensures
        e matches Error::MethodNotFound(m) && m@ == "sampling/createMessage"@,
{
    Error::MethodNotFound("sampling/createMessage".to_string())
}

/// The requests a client answers on behalf of the server.
#[derive(Debug, Clone, Copy, PartialEq, Eq, Structural)]
pub enum ClientService {
    CreateMessage,
    ListRoots,
    Elicit,
}

/// The name of a client service in its default answer.
pub open spec fn service_name(s: ClientService) -> Seq<char> {
    match s {
        ClientService::CreateMessage => "create_message"@,
        ClientService::ListRoots => "list_roots"@,
        ClientService::Elicit => "elicit"@,
    }
}

/// The default answer of a client asked for a service it does not offer.
pub fn client_unsupported(service: ClientService) -> (e: Error)
    ensures
        e matches Error::InvalidRequest(m) && m@ == service_name(service) + " not implemented"@,
{
    let name = match service {
        ClientService::CreateMessage => "create_message",
        ClientService::ListRoots => "list_roots",
        ClientService::Elicit => "elicit",
    };
    let mut m = name.to_string();
    m.append(" not implemented");
    Error::InvalidRequest(m)
}

} // verus!
