//! Content blocks carried in prompts, tool results and sampling messages.
use vstd::prelude::*;

use crate::json::{JsonNumber, JsonValue};
use crate::map::{insert_into, opt_get, opt_wf, StrMap};
use crate::schema::resources::ResourceContents;

verus! {

/// The sender or recipient of messages and data in a conversation.
#[derive(Debug, Clone, Copy, PartialEq, Eq, Structural)]
pub enum Role {
    User,
    Assistant,
}

/// Optional annotations for the client.
#[derive(Debug, Clone)]
pub struct Annotations {
    /// Who the intended customer of this object or data is.
    pub audience: Option<Vec<Role>>,
    /// How important this data is, from 0 (least) to 1 (most), as a JSON number.
    pub priority: Option<JsonNumber>,
    /// The last time this object was modified, in ISO 8601 format.
    pub last_modified: Option<String>,
}

/// Text provided to or from an LLM.
#[derive(Debug)]
pub struct TextContent {
    /// The text content of the message.
    pub text: String,
    /// Optional annotations for the client.
    pub annotations: Option<Annotations>,
    /// Reserved metadata.
    pub _meta: Option<StrMap<JsonValue>>,
}

/// An image provided to or from an LLM.
#[derive(Debug)]
pub struct ImageContent {
    /// The base64-encoded image data.
    pub data: String,
    /// The MIME type of the image.
    pub mime_type: String,
    /// Optional annotations for the client.
    pub annotations: Option<Annotations>,
    /// Reserved metadata.
    pub _meta: Option<StrMap<JsonValue>>,
}

/// Audio provided to or from an LLM.
#[derive(Debug)]
pub struct AudioContent {
    /// The base64-encoded audio data.
    pub data: String,
    /// The MIME type of the audio.
    pub mime_type: String,
    /// Optional annotations for the client.
    pub annotations: Option<Annotations>,
    /// Reserved metadata.
    pub _meta: Option<StrMap<JsonValue>>,
}

/// The contents of a resource, embedded into a prompt or tool call result.
#[derive(Debug)]
pub struct EmbeddedResource {
    pub resource: ResourceContents,
    /// Optional annotations for the client.
    pub annotations: Option<Annotations>,
    /// Reserved metadata.
    pub _meta: Option<StrMap<JsonValue>>,
}

/// A resource the server can read, included in a prompt or tool call result.
#[derive(Debug)]
pub struct ResourceLink {
    /// The link's type tag.
    pub link_type: String,
    /// The URI of this resource.
    pub uri: String,
    /// A description of what this resource represents.
    pub description: Option<String>,
    /// The MIME type of this resource, if known.
    pub mime_type: Option<String>,
    /// Optional annotations for the client.
    pub annotations: Option<Annotations>,
    /// The size of the raw resource content, in bytes.
    pub size: Option<i64>,
    /// The programmatic name.
    pub name: String,
    /// A human-readable title.
    pub title: Option<String>,
    /// Reserved metadata.
    pub _meta: Option<StrMap<JsonValue>>,
}

impl ResourceLink {
    /// Sets the metadata.
    pub fn with_meta(self, meta: StrMap<JsonValue>) -> (r: ResourceLink)
        ensures
            r._meta == Some(meta),
            r.link_type == self.link_type && r.uri == self.uri && r.description == self.description && r.mime_type == self.mime_type && r.annotations == self.annotations && r.size == self.size && r.name == self.name && r.title == self.title,
    {
        ResourceLink { _meta: Some(meta), ..self }
    }

    /// Adds a single metadata entry.
    pub fn with_meta_entry(self, key: &str, value: JsonValue) -> (r: ResourceLink)
        requires
            opt_wf(self._meta),
        ensures
            r._meta matches Some(m) && m.wf() && m.spec_get(key@) == Some(value),
            forall|k: Seq<char>| k != key@ ==> #[trigger] opt_get(r._meta, k) == opt_get(self._meta, k),
            r.link_type == self.link_type && r.uri == self.uri && r.description == self.description && r.mime_type == self.mime_type && r.annotations == self.annotations && r.size == self.size && r.name == self.name && r.title == self.title,
    {
        let m = insert_into(self._meta, key, value);
        ResourceLink { _meta: Some(m), ..self }
    }
}

/// A content block.
#[derive(Debug)]
pub enum Content {
    Text(TextContent),
    Image(ImageContent),
    Audio(AudioContent),
    Resource(EmbeddedResource),
    ResourceLink(ResourceLink),
}

impl Content {
    /// A text content block without annotations or metadata.
    pub fn text(text: &str) -> (c: Content)
        ensures
            c matches Content::Text(t) && t.text@ == text@ && t.annotations is None
                && t._meta is None,
    {
        Content::Text(TextContent { text: text.to_string(), annotations: None, _meta: None })
    }
}

} // verus!
