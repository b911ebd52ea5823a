//! Prompts and prompt templates a server offers.
use vstd::prelude::*;

use crate::json::JsonValue;
use crate::map::{insert_into, opt_get, opt_wf, StrMap};
use crate::schema::content::{Content, Role, TextContent};
use crate::schema::jsonrpc::Cursor;

verus! {

/// The server's response to a prompts/list request.
#[derive(Debug)]
pub struct ListPromptsResult {
    pub prompts: Vec<Prompt>,
    /// The pagination position after the last returned result.
    pub next_cursor: Option<Cursor>,
}

impl ListPromptsResult {
    /// Creates an empty result.
    pub fn new() -> (r: ListPromptsResult)
        ensures
            r.prompts@.len() == 0,
            r.next_cursor is None,
    {
        ListPromptsResult { prompts: Vec::new(), next_cursor: None }
    }

    /// Adds a prompt to the list.
    pub fn with_prompt(self, prompt: Prompt) -> (r: ListPromptsResult)
        ensures
            r.prompts@ == self.prompts@.push(prompt),
            r.next_cursor == self.next_cursor,
    {
        let mut v = self.prompts;
        v.push(prompt);
        ListPromptsResult { prompts: v, next_cursor: self.next_cursor }
    }

    /// Adds several prompts to the list, in order.
    pub fn with_prompts(self, prompts: Vec<Prompt>) -> (r: ListPromptsResult)
        ensures
            r.prompts@ == self.prompts@ + prompts@,
            r.next_cursor == self.next_cursor,
    {
        let mut v = self.prompts;
        let mut more = prompts;
        v.append(&mut more);
        ListPromptsResult { prompts: v, next_cursor: self.next_cursor }
    }

    /// Sets the pagination cursor.
    pub fn with_cursor(self, cursor: &str) -> (r: ListPromptsResult)
        ensures
            r.prompts == self.prompts,
            r.next_cursor matches Some(c) && c.0@ == cursor@,
    {
        ListPromptsResult { prompts: self.prompts, next_cursor: Some(Cursor::new(cursor)) }
    }
}

/// The server's response to a prompts/get request.
#[derive(Debug)]
pub struct GetPromptResult {
    /// An optional description for the prompt.
    pub description: Option<String>,
    pub messages: Vec<PromptMessage>,
    /// Reserved metadata.
    pub _meta: Option<StrMap<JsonValue>>,
}

impl Default for GetPromptResult {
    fn default() -> (r: GetPromptResult)
        ensures
            r.description is None,
            r.messages@.len() == 0,
            r._meta is None,
    {
        GetPromptResult::new()
    }
}

impl GetPromptResult {
    /// Creates an empty result.
    pub fn new() -> (r: GetPromptResult)
        ensures
            r.description is None,
            r.messages@.len() == 0,
            r._meta is None,
    {
        GetPromptResult { description: None, messages: Vec::new(), _meta: None }
    }

    /// Sets the description.
    pub fn with_description(self, description: &str) -> (r: GetPromptResult)
        ensures
            r.description matches Some(d) && d@ == description@,
            r.messages == self.messages,
            r._meta == self._meta,
    {
        GetPromptResult { description: Some(description.to_string()), ..self }
    }

    /// Adds a message.
    pub fn with_message(self, message: PromptMessage) -> (r: GetPromptResult)
        ensures
            r.messages@ == self.messages@.push(message),
            r.description == self.description,
            r._meta == self._meta,
    {
        let mut v = self.messages;
        v.push(message);
        GetPromptResult { description: self.description, messages: v, _meta: self._meta }
    }

    /// Adds several messages, in order.
    pub fn with_messages(self, messages: Vec<PromptMessage>) -> (r: GetPromptResult)
        ensures
            r.messages@ == self.messages@ + messages@,
            r.description == self.description,
            r._meta == self._meta,
    {
        let mut v = self.messages;
        let mut more = messages;
        v.append(&mut more);
        GetPromptResult { description: self.description, messages: v, _meta: self._meta }
    }

    /// Sets the metadata.
    pub fn with_meta(self, meta: StrMap<JsonValue>) -> (r: GetPromptResult)
        ensures
            r._meta == Some(meta),
            r.description == self.description,
            r.messages == self.messages,
    {
        GetPromptResult { _meta: Some(meta), ..self }
    }

    /// Adds a single metadata entry.
    pub fn with_meta_entry(self, key: &str, value: JsonValue) -> (r: GetPromptResult)
        requires
            opt_wf(self._meta),
        ensures
            r._meta matches Some(m) && m.wf() && m.spec_get(key@) == Some(value),
            forall|k: Seq<char>| k != key@ ==> #[trigger] opt_get(r._meta, k) == opt_get(self._meta, k),
            r.description == self.description,
            r.messages == self.messages,
    {
        let m = insert_into(self._meta, key, value);
        GetPromptResult { description: self.description, messages: self.messages, _meta: Some(m) }
    }
}

/// A prompt or prompt template that the server offers.
#[derive(Debug)]
pub struct Prompt {
    pub description: Option<String>,
    /// The arguments used for templating the prompt.
    pub arguments: Option<Vec<PromptArgument>>,
    /// The programmatic name.
    pub name: String,
    /// A human-readable title.
    pub title: Option<String>,
    /// Reserved metadata.
    pub _meta: Option<StrMap<JsonValue>>,
}

impl Prompt {
    /// Creates a prompt with a name.
    pub fn new(name: &str) -> (r: Prompt)
        ensures
            r.name@ == name@,
            r.description is None,
            r.arguments is None,
            r.title is None,
            r._meta is None,
    {
        Prompt { description: None, arguments: None, name: name.to_string(), title: None, _meta: None }
    }

    /// Sets the description.
    pub fn with_description(self, description: &str) -> (r: Prompt)
        ensures
            r.description matches Some(d) && d@ == description@,
            r.arguments == self.arguments && r.name == self.name && r.title == self.title
                && r._meta == self._meta,
    {
        Prompt { description: Some(description.to_string()), ..self }
    }

    /// Adds an argument, creating the argument list when absent.
    pub fn with_argument(self, argument: PromptArgument) -> (r: Prompt)
        ensures
            r.arguments matches Some(a) && a@ == match self.arguments {
                Some(old) => old@.push(argument),
                None => seq![argument],
            },
            r.description == self.description && r.name == self.name && r.title == self.title
                && r._meta == self._meta,
    {
        let mut v = match self.arguments {
            Some(v) => v,
            None => Vec::new(),
        };
        v.push(argument);
        Prompt { arguments: Some(v), ..self }
    }

    /// Replaces the arguments.
    pub fn with_arguments(self, arguments: Vec<PromptArgument>) -> (r: Prompt)
        ensures
            r.arguments == Some(arguments),
            r.description == self.description && r.name == self.name && r.title == self.title
                && r._meta == self._meta,
    {
        Prompt { arguments: Some(arguments), ..self }
    }

    /// Sets the title.
    pub fn with_title(self, title: &str) -> (r: Prompt)
        ensures
            r.title matches Some(t) && t@ == title@,
            r.description == self.description && r.arguments == self.arguments && r.name
                == self.name && r._meta == self._meta,
    {
        Prompt { title: Some(title.to_string()), ..self }
    }

    /// Sets the name.
    pub fn with_name(self, name: &str) -> (r: Prompt)
        ensures
            r.name@ == name@,
            r.description == self.description && r.arguments == self.arguments && r.title
                == self.title && r._meta == self._meta,
    {
        Prompt { name: name.to_string(), ..self }
    }

    /// Sets the metadata.
    pub fn with_meta(self, meta: StrMap<JsonValue>) -> (r: Prompt)
        ensures
            r._meta == Some(meta),
            r.description == self.description && r.arguments == self.arguments && r.name
                == self.name && r.title == self.title,
    {
        Prompt { _meta: Some(meta), ..self }
    }

    /// Adds a single metadata entry.
    pub fn with_meta_entry(self, key: &str, value: JsonValue) -> (r: Prompt)
        requires
            opt_wf(self._meta),
        ensures
            r._meta matches Some(m) && m.wf() && m.spec_get(key@) == Some(value),
            forall|k: Seq<char>| k != key@ ==> #[trigger] opt_get(r._meta, k) == opt_get(self._meta, k),
            r.description == self.description && r.arguments == self.arguments && r.name
                == self.name && r.title == self.title,
    {
        let m = insert_into(self._meta, key, value);
        Prompt { _meta: Some(m), ..self }
    }
}

/// Describes an argument that a prompt can accept.
#[derive(Debug, Clone)]
pub struct PromptArgument {
    pub description: Option<String>,
    /// Whether this argument must be provided.
    pub required: Option<bool>,
    /// The programmatic name.
    pub name: String,
    /// A human-readable title.
    pub title: Option<String>,
}

impl PromptArgument {
    /// Creates an argument with a name.
    pub fn new(name: &str) -> (r: PromptArgument)
        ensures
            r.name@ == name@,
            r.description is None,
            r.required is None,
            r.title is None,
    {
        PromptArgument { description: None, required: None, name: name.to_string(), title: None }
    }

    /// Sets the description.
    pub fn with_description(self, description: &str) -> (r: PromptArgument)
        ensures
            r.description matches Some(d) && d@ == description@,
            r.required == self.required && r.name == self.name && r.title == self.title,
    {
        PromptArgument { description: Some(description.to_string()), ..self }
    }

    /// Sets whether the argument must be provided.
    pub fn required(self, required: bool) -> (r: PromptArgument)
        ensures
            r.required == Some(required),
            r.description == self.description && r.name == self.name && r.title == self.title,
    {
        PromptArgument { required: Some(required), ..self }
    }

    /// Sets the title.
    pub fn with_title(self, title: &str) -> (r: PromptArgument)
        ensures
            r.title matches Some(t) && t@ == title@,
            r.description == self.description && r.required == self.required && r.name
                == self.name,
    {
        PromptArgument { title: Some(title.to_string()), ..self }
    }

    /// Sets the name.
    pub fn with_name(self, name: &str) -> (r: PromptArgument)
        ensures
            r.name@ == name@,
            r.description == self.description && r.required == self.required && r.title
                == self.title,
    {
        PromptArgument { name: name.to_string(), ..self }
    }
}

/// A message returned as part of a prompt.
#[derive(Debug)]
pub struct PromptMessage {
    pub role: Role,
    pub content: Content,
}

impl PromptMessage {
    /// A message with the given role and content.
    pub fn new(role: Role, content: Content) -> (r: PromptMessage)
        ensures
            r.role == role,
            r.content == content,
    {
        PromptMessage { role, content }
    }

    /// A user message.
    pub fn user(content: Content) -> (r: PromptMessage)
        ensures
            r.role == Role::User,
            r.content == content,
    {
        PromptMessage { role: Role::User, content }
    }

    /// An assistant message.
    pub fn assistant(content: Content) -> (r: PromptMessage)
        ensures
            r.role == Role::Assistant,
            r.content == content,
    {
        PromptMessage { role: Role::Assistant, content }
    }

    /// A user message holding plain text.
    pub fn user_text(text: &str) -> (r: PromptMessage)
        ensures
            r.role == Role::User,
            r.content matches Content::Text(t) && t.text@ == text@ && t.annotations is None
                && t._meta is None,
    {
        PromptMessage {
            role: Role::User,
            content: Content::Text(TextContent { text: text.to_string(), annotations: None, _meta: None }),
        }
    }

    /// An assistant message holding plain text.
    pub fn assistant_text(text: &str) -> (r: PromptMessage)
        ensures
            r.role == Role::Assistant,
            r.content matches Content::Text(t) && t.text@ == text@ && t.annotations is None
                && t._meta is None,
    {
        PromptMessage {
            role: Role::Assistant,
            content: Content::Text(TextContent { text: text.to_string(), annotations: None, _meta: None }),
        }
    }
}

} // verus!
