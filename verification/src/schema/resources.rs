//! Resources a server can read, and their contents.
use base64::Engine;
use vstd::prelude::*;
use vstd::utf8::{decode_utf8, decode_utf8_encode_utf8, encode_utf8, valid_utf8};

use crate::json::JsonValue;
use crate::map::{insert_into, opt_get, opt_wf, StrMap};
use crate::schema::content::Annotations;
use crate::schema::jsonrpc::Cursor;
use crate::text::{is_some_text, same_text};

verus! {

/// The character that encodes the 6-bit value `v` in the standard base64 alphabet.
pub open spec fn base64_digit(v: int) -> char {
    if v < 26 {
        (65 + v) as char
    } else if v < 52 {
        (97 + (v - 26)) as char
    } else if v < 62 {
        (48 + (v - 52)) as char
    } else if v == 62 {
        '+'
    } else {
        '/'
    }
}

/// Standard base64 (RFC 4648, with `=` padding) of a byte sequence.
pub open spec fn base64_standard(s: Seq<u8>) -> Seq<char>
    decreases s.len(),
{
    if s.len() == 0 {
        Seq::empty()
    } else {
        let b0 = s[0] as int;
        let b1 = if s.len() > 1 { s[1] as int } else { 0 };
        let b2 = if s.len() > 2 { s[2] as int } else { 0 };
        let c0 = base64_digit(b0 / 4);
        let c1 = base64_digit((b0 % 4) * 16 + b1 / 16);
        let c2 = base64_digit((b1 % 16) * 4 + b2 / 64);
        let c3 = base64_digit(b2 % 64);
        if s.len() == 1 {
            seq![c0, c1, '=', '=']
        } else if s.len() == 2 {
            seq![c0, c1, c2, '=']
        } else {
            seq![c0, c1, c2, c3] + base64_standard(s.skip(3))
        }
    }
}

/// The 6-bit value a character of the standard base64 alphabet stands for.
pub open spec fn base64_value(c: char) -> int {
    let u = c as int;
    if 65 <= u <= 90 {
        u - 65
    } else if 97 <= u <= 122 {
        u - 71
    } else if 48 <= u <= 57 {
        u + 4
    } else if c == '+' {
        62
    } else {
        63
    }
}

/// Standard base64 decoding (RFC 4648, with `=` padding): each group of four
/// characters gives three bytes, fewer where the group ends in padding.
pub open spec fn base64_decode(s: Seq<char>) -> Seq<u8>
    decreases s.len(),
{
    if s.len() < 4 {
        Seq::empty()
    } else {
        let v0 = base64_value(s[0]);
        let v1 = base64_value(s[1]);
        let x0 = (v0 * 4 + v1 / 16) as u8;
        if s[2] == '=' {
            seq![x0]
        } else {
            let v2 = base64_value(s[2]);
            let x1 = ((v1 % 16) * 16 + v2 / 4) as u8;
            if s[3] == '=' {
                seq![x0, x1]
            } else {
                let v3 = base64_value(s[3]);
                let x2 = ((v2 % 4) * 64 + v3) as u8;
                seq![x0, x1, x2] + base64_decode(s.skip(4))
            }
        }
    }
}

proof fn lemma_base64_digit_value(v: int)
    requires
        0 <= v < 64,
    ensures
        base64_value(base64_digit(v)) == v,
        base64_digit(v) != '=',
{
}

/// Law: decoding the standard base64 encoding of bytes gives the bytes back.
pub proof fn law_base64_round_trip(bytes: Seq<u8>)
    ensures
        base64_decode(base64_standard(bytes)) == bytes,
    decreases bytes.len(),
{
    if bytes.len() > 0 {
        let b0 = bytes[0] as int;
        let b1 = if bytes.len() > 1 { bytes[1] as int } else { 0 };
        let b2 = if bytes.len() > 2 { bytes[2] as int } else { 0 };
        let v0 = b0 / 4;
        let v1 = (b0 % 4) * 16 + b1 / 16;
        let v2 = (b1 % 16) * 4 + b2 / 64;
        let v3 = b2 % 64;
        assert(0 <= v0 < 64 && 0 <= v1 < 64 && 0 <= v2 < 64 && 0 <= v3 < 64);
        lemma_base64_digit_value(v0);
        lemma_base64_digit_value(v1);
        lemma_base64_digit_value(v2);
        lemma_base64_digit_value(v3);
        assert(v0 * 4 + v1 / 16 == b0);
        assert((v1 % 16) * 16 + v2 / 4 == b1);
        assert((v2 % 4) * 64 + v3 == b2);
        let e = base64_standard(bytes);
        if bytes.len() == 1 {
            assert(base64_decode(e) =~= bytes);
        } else if bytes.len() == 2 {
            assert(base64_decode(e) =~= bytes);
        } else {
            let rest = bytes.skip(3);
            law_base64_round_trip(rest);
            assert(e.skip(4) =~= base64_standard(rest));
            assert(base64_decode(e) =~= bytes);
        }
    }
}

/// Encodes bytes as standard base64.
///
/// Calls `base64::engine::general_purpose::STANDARD.encode`. The contract
/// claims that the result is the RFC 4648 standard-alphabet encoding with `=`
/// padding; the length bound rules out the crate's panic on an encoded length
/// that overflows `usize`.
#[verifier::external_body]
fn base64_encode(bytes: &[u8]) -> (r: String)
    requires
        bytes@.len() / 3 * 4 + 4 <= usize::MAX,
    ensures
        r@ == base64_standard(bytes@),
{
    base64::engine::general_purpose::STANDARD.encode(bytes)
}

/// The MIME type guessed for a path: its top-level type, its subtype (without
/// any `+suffix`), and its full text.
pub uninterp spec fn guessed_mime(path: Seq<char>) -> (Seq<char>, Seq<char>, Seq<char>);

/// Guesses the MIME type of a path from its extension.
///
/// Calls `mime_guess::from_path(path).first_or_octet_stream()` and reads the
/// resulting `Mime`'s `type_()`, `subtype()` and `to_string()`. The contract
/// claims only that the three texts are a function of the path, named
/// `guessed_mime`; the mapping from extensions is the crate's table.
#[verifier::external_body]
fn guess_mime(path: &str) -> (r: (String, String, String))
    ensures
        (r.0@, r.1@, r.2@) == guessed_mime(path@),
{
    let m = mime_guess::from_path(path).first_or_octet_stream();
    (m.type_().as_str().to_string(), m.subtype().as_str().to_string(), m.to_string())
}

/// Decodes bytes as UTF-8 text.
///
/// Calls `String::from_utf8`. The contract claims that it succeeds exactly on
/// valid UTF-8 and then yields the decoded characters, as std documents.
#[verifier::external_body]
fn utf8_text(bytes: Vec<u8>) -> (r: Option<String>)
    ensures
        r is Some == valid_utf8(bytes@),
        r matches Some(t) ==> t@ == decode_utf8(bytes@),
{
    String::from_utf8(bytes).ok()
}

/// The server's response to a resources/list request.
#[derive(Debug)]
pub struct ListResourcesResult {
    pub resources: Vec<Resource>,
    /// The pagination position after the last returned result.
    pub next_cursor: Option<Cursor>,
}

impl ListResourcesResult {
    /// Creates an empty result.
    pub fn new() -> (r: ListResourcesResult)
        ensures
            r.resources@.len() == 0,
            r.next_cursor is None,
    {
        ListResourcesResult { resources: Vec::new(), next_cursor: None }
    }

    /// Adds a resource to the list.
    pub fn with_resource(self, resource: Resource) -> (r: ListResourcesResult)
        ensures
            r.resources@ == self.resources@.push(resource),
            r.next_cursor == self.next_cursor,
    {
        let mut v = self.resources;
        v.push(resource);
        ListResourcesResult { resources: v, next_cursor: self.next_cursor }
    }

    /// Adds several resources to the list, in order.
    pub fn with_resources(self, resources: Vec<Resource>) -> (r: ListResourcesResult)
        ensures
            r.resources@ == self.resources@ + resources@,
            r.next_cursor == self.next_cursor,
    {
        let mut v = self.resources;
        let mut more = resources;
        v.append(&mut more);
        ListResourcesResult { resources: v, next_cursor: self.next_cursor }
    }

    /// Sets the pagination cursor.
    pub fn with_cursor(self, cursor: &str) -> (r: ListResourcesResult)
        ensures
            r.resources == self.resources,
            r.next_cursor matches Some(c) && c.0@ == cursor@,
    {
        ListResourcesResult { resources: self.resources, next_cursor: Some(Cursor::new(cursor)) }
    }
}

/// The server's response to a resources/templates/list request.
#[derive(Debug)]
pub struct ListResourceTemplatesResult {
    pub resource_templates: Vec<ResourceTemplate>,
    /// The pagination position after the last returned result.
    pub next_cursor: Option<Cursor>,
}

impl ListResourceTemplatesResult {
    /// Creates an empty result.
    pub fn new() -> (r: ListResourceTemplatesResult)
        ensures
            r.resource_templates@.len() == 0,
            r.next_cursor is None,
    {
        ListResourceTemplatesResult { resource_templates: Vec::new(), next_cursor: None }
    }

    /// Adds a template to the list.
    pub fn with_resource_template(self, template: ResourceTemplate) -> (r:
        ListResourceTemplatesResult)
        ensures
            r.resource_templates@ == self.resource_templates@.push(template),
            r.next_cursor == self.next_cursor,
    {
        let mut v = self.resource_templates;
        v.push(template);
        ListResourceTemplatesResult { resource_templates: v, next_cursor: self.next_cursor }
    }

    /// Adds several templates to the list, in order.
    pub fn with_resource_templates(self, templates: Vec<ResourceTemplate>) -> (r:
        ListResourceTemplatesResult)
        ensures
            r.resource_templates@ == self.resource_templates@ + templates@,
            r.next_cursor == self.next_cursor,
    {
        let mut v = self.resource_templates;
        let mut more = templates;
        v.append(&mut more);
        ListResourceTemplatesResult { resource_templates: v, next_cursor: self.next_cursor }
    }

    /// Sets the pagination cursor.
    pub fn with_cursor(self, cursor: &str) -> (r: ListResourceTemplatesResult)
        ensures
            r.resource_templates == self.resource_templates,
            r.next_cursor matches Some(c) && c.0@ == cursor@,
    {
        ListResourceTemplatesResult {
            resource_templates: self.resource_templates,
            next_cursor: Some(Cursor::new(cursor)),
        }
    }
}

/// The server's response to a resources/read request.
#[derive(Debug)]
pub struct ReadResourceResult {
    pub contents: Vec<ResourceContents>,
    /// Reserved metadata.
    pub _meta: Option<StrMap<JsonValue>>,
}

impl ReadResourceResult {
    /// Creates an empty result.
    pub fn new() -> (r: ReadResourceResult)
        ensures
            r.contents@.len() == 0,
            r._meta is None,
    {
        ReadResourceResult { contents: Vec::new(), _meta: None }
    }

    /// Adds contents to the result.
    pub fn with_content(self, content: ResourceContents) -> (r: ReadResourceResult)
        ensures
            r.contents@ == self.contents@.push(content),
            r._meta == self._meta,
    {
        let mut v = self.contents;
        v.push(content);
        ReadResourceResult { contents: v, _meta: self._meta }
    }

    /// Adds several contents to the result, in order.
    pub fn with_contents(self, contents: Vec<ResourceContents>) -> (r: ReadResourceResult)
        ensures
            r.contents@ == self.contents@ + contents@,
            r._meta == self._meta,
    {
        let mut v = self.contents;
        let mut more = contents;
        v.append(&mut more);
        ReadResourceResult { contents: v, _meta: self._meta }
    }

    /// Adds text contents for `uri`.
    pub fn with_text(self, uri: &str, text: &str) -> (r: ReadResourceResult)
        ensures
            r.contents@.len() == self.contents@.len() + 1,
            r.contents@.subrange(0, self.contents@.len() as int) == self.contents@,
            r.contents@.last() matches ResourceContents::Text(t) && t.uri@ == uri@ && t.text@
                == text@ && t.mime_type is None && t._meta is None,
            r._meta == self._meta,
    {
        let r = self.with_content(ResourceContents::text(uri, text));
        assert(r.contents@.subrange(0, r.contents@.len() - 1) =~= self.contents@);
        r
    }

    /// Sets the metadata.
    pub fn with_meta(self, meta: StrMap<JsonValue>) -> (r: ReadResourceResult)
        ensures
            r.contents == self.contents,
            r._meta == Some(meta),
    {
        ReadResourceResult { contents: self.contents, _meta: Some(meta) }
    }

    /// Adds a single metadata entry.
    pub fn with_meta_entry(self, key: &str, value: JsonValue) -> (r: ReadResourceResult)
        requires
            opt_wf(self._meta),
        ensures
            r.contents == self.contents,
            r._meta matches Some(m) && m.wf() && m.spec_get(key@) == Some(value),
            forall|k: Seq<char>| k != key@ ==> #[trigger] opt_get(r._meta, k) == opt_get(self._meta, k),
    {
        ReadResourceResult { contents: self.contents, _meta: Some(insert_into(self._meta, key, value)) }
    }
}

/// A known resource that the server is capable of reading.
#[derive(Debug)]
pub struct Resource {
    pub uri: String,
    pub description: Option<String>,
    pub mime_type: Option<String>,
    pub annotations: Option<Annotations>,
    /// The size of the raw resource content, in bytes.
    pub size: Option<i64>,
    /// The programmatic name.
    pub name: String,
    /// A human-readable title.
    pub title: Option<String>,
    /// Reserved metadata.
    pub _meta: Option<StrMap<JsonValue>>,
}

impl Resource {
    /// Creates a resource with a name and URI.
    pub fn new(name: &str, uri: &str) -> (r: Resource)
        ensures
            r.name@ == name@,
            r.uri@ == uri@,
            r.description is None,
            r.mime_type is None,
            r.annotations is None,
            r.size is None,
            r.title is None,
            r._meta is None,
    {
        Resource {
            uri: uri.to_string(),
            description: None,
            mime_type: None,
            annotations: None,
            size: None,
            name: name.to_string(),
            title: None,
            _meta: None,
        }
    }

    /// Sets the description.
    pub fn with_description(self, description: &str) -> (r: Resource)
        ensures
            r.description matches Some(d) && d@ == description@,
            r.uri == self.uri && r.mime_type == self.mime_type && r.annotations == self.annotations
                && r.size == self.size && r.name == self.name && r.title == self.title && r._meta
                == self._meta,
    {
        Resource { description: Some(description.to_string()), ..self }
    }

    /// Sets the MIME type.
    pub fn with_mime_type(self, mime_type: &str) -> (r: Resource)
        ensures
            r.mime_type matches Some(m) && m@ == mime_type@,
            r.uri == self.uri && r.description == self.description && r.annotations
                == self.annotations && r.size == self.size && r.name == self.name && r.title
                == self.title && r._meta == self._meta,
    {
        Resource { mime_type: Some(mime_type.to_string()), ..self }
    }

    /// Sets the annotations.
    pub fn with_annotations(self, annotations: Annotations) -> (r: Resource)
        ensures
            r.annotations == Some(annotations),
            r.uri == self.uri && r.description == self.description && r.mime_type == self.mime_type
                && r.size == self.size && r.name == self.name && r.title == self.title && r._meta
                == self._meta,
    {
        Resource { annotations: Some(annotations), ..self }
    }

    /// Sets the size in bytes.
    pub fn with_size(self, size: i64) -> (r: Resource)
        ensures
            r.size == Some(size),
            r.uri == self.uri && r.description == self.description && r.mime_type == self.mime_type
                && r.annotations == self.annotations && r.name == self.name && r.title
                == self.title && r._meta == self._meta,
    {
        Resource { size: Some(size), ..self }
    }

    /// Sets the name.
    pub fn with_name(self, name: &str) -> (r: Resource)
        ensures
            r.name@ == name@,
            r.uri == self.uri && r.description == self.description && r.mime_type == self.mime_type
                && r.annotations == self.annotations && r.size == self.size && r.title
                == self.title && r._meta == self._meta,
    {
        Resource { name: name.to_string(), ..self }
    }

    /// Sets the title.
    pub fn with_title(self, title: &str) -> (r: Resource)
        ensures
            r.title matches Some(t) && t@ == title@,
            r.uri == self.uri && r.description == self.description && r.mime_type == self.mime_type
                && r.annotations == self.annotations && r.size == self.size && r.name == self.name
                && r._meta == self._meta,
    {
        Resource { title: Some(title.to_string()), ..self }
    }

    /// Sets the metadata.
    pub fn with_meta(self, meta: StrMap<JsonValue>) -> (r: Resource)
        ensures
            r._meta == Some(meta),
            r.uri == self.uri && r.description == self.description && r.mime_type == self.mime_type
                && r.annotations == self.annotations && r.size == self.size && r.name == self.name
                && r.title == self.title,
    {
        Resource { _meta: Some(meta), ..self }
    }

    /// Adds a single metadata entry.
    pub fn with_meta_entry(self, key: &str, value: JsonValue) -> (r: Resource)
        requires
            opt_wf(self._meta),
        ensures
            r._meta matches Some(m) && m.wf() && m.spec_get(key@) == Some(value),
            forall|k: Seq<char>| k != key@ ==> #[trigger] opt_get(r._meta, k) == opt_get(self._meta, k),
            r.uri == self.uri && r.description == self.description && r.mime_type == self.mime_type
                && r.annotations == self.annotations && r.size == self.size && r.name == self.name
                && r.title == self.title,
    {
        let m = insert_into(self._meta, key, value);
        Resource { _meta: Some(m), ..self }
    }

    /// Describes a file of `file_len` bytes at `path`: its MIME type is guessed
    /// from the path and its size is the file length.
    pub fn for_file(path: &str, name: &str, uri: &str, file_len: u64) -> (r: Resource)
        ensures
            r.name@ == name@,
            r.uri@ == uri@,
            r.mime_type matches Some(m) && m@ == guessed_mime(path@).2,
            r.size == Some(file_len as i64),
            r.description is None,
            r.annotations is None,
            r.title is None,
            r._meta is None,
    {
        let (_, _, mime) = guess_mime(path);
        Resource::new(name, uri).with_mime_type(mime.as_str()).with_size(file_len as i64)
    }
}

/// A template description for resources available on the server.
#[derive(Debug)]
pub struct ResourceTemplate {
    /// A URI template (RFC 6570) that can be used to construct resource URIs.
    pub uri_template: String,
    pub description: Option<String>,
    pub mime_type: Option<String>,
    pub annotations: Option<Annotations>,
    /// The programmatic name.
    pub name: String,
    /// A human-readable title.
    pub title: Option<String>,
    /// Reserved metadata.
    pub _meta: Option<StrMap<JsonValue>>,
}

impl ResourceTemplate {
    /// Creates a template with a name and URI template.
    pub fn new(name: &str, uri_template: &str) -> (r: ResourceTemplate)
        ensures
            r.name@ == name@,
            r.uri_template@ == uri_template@,
            r.description is None,
            r.mime_type is None,
            r.annotations is None,
            r.title is None,
            r._meta is None,
    {
        ResourceTemplate {
            uri_template: uri_template.to_string(),
            description: None,
            mime_type: None,
            annotations: None,
            name: name.to_string(),
            title: None,
            _meta: None,
        }
    }

    /// Sets the description.
    pub fn with_description(self, description: &str) -> (r: ResourceTemplate)
        ensures
            r.description matches Some(d) && d@ == description@,
            r.uri_template == self.uri_template && r.mime_type == self.mime_type && r.annotations
                == self.annotations && r.name == self.name && r.title == self.title && r._meta
                == self._meta,
    {
        ResourceTemplate { description: Some(description.to_string()), ..self }
    }

    /// Sets the MIME type.
    pub fn with_mime_type(self, mime_type: &str) -> (r: ResourceTemplate)
        ensures
            r.mime_type matches Some(m) && m@ == mime_type@,
            r.uri_template == self.uri_template && r.description == self.description
                && r.annotations == self.annotations && r.name == self.name && r.title
                == self.title && r._meta == self._meta,
    {
        ResourceTemplate { mime_type: Some(mime_type.to_string()), ..self }
    }

    /// Sets the annotations.
    pub fn with_annotations(self, annotations: Annotations) -> (r: ResourceTemplate)
        ensures
            r.annotations == Some(annotations),
            r.uri_template == self.uri_template && r.description == self.description
                && r.mime_type == self.mime_type && r.name == self.name && r.title == self.title
                && r._meta == self._meta,
    {
        ResourceTemplate { annotations: Some(annotations), ..self }
    }

    /// Sets the name.
    pub fn with_name(self, name: &str) -> (r: ResourceTemplate)
        ensures
            r.name@ == name@,
            r.uri_template == self.uri_template && r.description == self.description
                && r.mime_type == self.mime_type && r.annotations == self.annotations && r.title
                == self.title && r._meta == self._meta,
    {
        ResourceTemplate { name: name.to_string(), ..self }
    }

    /// Sets the title.
    pub fn with_title(self, title: &str) -> (r: ResourceTemplate)
        ensures
            r.title matches Some(t) && t@ == title@,
            r.uri_template == self.uri_template && r.description == self.description
                && r.mime_type == self.mime_type && r.annotations == self.annotations && r.name
                == self.name && r._meta == self._meta,
    {
        ResourceTemplate { title: Some(title.to_string()), ..self }
    }

    /// Sets the metadata.
    pub fn with_meta(self, meta: StrMap<JsonValue>) -> (r: ResourceTemplate)
        ensures
            r._meta == Some(meta),
            r.uri_template == self.uri_template && r.description == self.description
                && r.mime_type == self.mime_type && r.annotations == self.annotations && r.name
                == self.name && r.title == self.title,
    {
        ResourceTemplate { _meta: Some(meta), ..self }
    }

    /// Adds a single metadata entry.
    pub fn with_meta_entry(self, key: &str, value: JsonValue) -> (r: ResourceTemplate)
        requires
            opt_wf(self._meta),
        ensures
            r._meta matches Some(m) && m.wf() && m.spec_get(key@) == Some(value),
            forall|k: Seq<char>| k != key@ ==> #[trigger] opt_get(r._meta, k) == opt_get(self._meta, k),
            r.uri_template == self.uri_template && r.description == self.description
                && r.mime_type == self.mime_type && r.annotations == self.annotations && r.name
                == self.name && r.title == self.title,
    {
        let m = insert_into(self._meta, key, value);
        ResourceTemplate { _meta: Some(m), ..self }
    }
}

/// The contents of a specific resource or sub-resource.
#[derive(Debug)]
pub enum ResourceContents {
    Text(TextResourceContents),
    Blob(BlobResourceContents),
}

/// Whether file contents of the given MIME type and subtype are sent as text
/// (when they are valid UTF-8).
pub open spec fn is_text_mime(top: Seq<char>, sub: Seq<char>) -> bool {
    top == "text"@ || (top == "application"@ && (sub == "json"@ || sub == "xml"@ || sub
        == "javascript"@ || sub == "x-yaml"@ || sub == "yaml"@))
}

/// Law: the text MIME types are every `text/*` type and the application
/// types json, xml, javascript, x-yaml and yaml; every other type is sent as
/// a blob.
pub proof fn law_text_mime_types(top: Seq<char>, sub: Seq<char>)
    ensures
        is_text_mime(top, sub) <==> (top == "text"@ || (top == "application"@ && set![
            "json"@,
            "xml"@,
            "javascript"@,
            "x-yaml"@,
            "yaml"@,
        ].contains(sub))),
{
}

/// Law: valid UTF-8 contents of an application/xml file (and likewise json,
/// javascript, x-yaml and yaml) are sent as their text, with the full MIME
/// type.
pub proof fn law_application_text_types_are_sent_as_text(
    sub: Seq<char>,
    full: Seq<char>,
    uri: Seq<char>,
    contents: Seq<u8>,
    r: ResourceContents,
)
    requires
        sub == "json"@ || sub == "xml"@ || sub == "javascript"@ || sub == "x-yaml"@ || sub
            == "yaml"@,
        valid_utf8(contents),
        is_file_contents("application"@, sub, full, uri, contents, r),
    ensures
        r matches ResourceContents::Text(t) && t.text@ == decode_utf8(contents) && is_some_text(
            t.mime_type,
            full,
        ) && t.uri@ == uri,
{
}

impl ResourceContents {
    /// Text contents for `uri`.
    pub fn text(uri: &str, text: &str) -> (r: ResourceContents)
        ensures
            r matches ResourceContents::Text(t) && t.uri@ == uri@ && t.text@ == text@
                && t.mime_type is None && t._meta is None,
    {
        ResourceContents::Text(
            TextResourceContents {
                uri: uri.to_string(),
                mime_type: None,
                text: text.to_string(),
                _meta: None,
            },
        )
    }

    /// Text contents for `uri` holding the JSON text `json_text`.
    pub fn json_text(uri: &str, json_text: &str) -> (r: ResourceContents)
        ensures
            r matches ResourceContents::Text(t) && t.uri@ == uri@ && t.text@ == json_text@
                && is_some_text(t.mime_type, "application/json"@) && t._meta is None,
    {
        ResourceContents::Text(
            TextResourceContents {
                uri: uri.to_string(),
                mime_type: Some("application/json".to_string()),
                text: json_text.to_string(),
                _meta: None,
            },
        )
    }

    /// Binary contents for `uri`, already base64-encoded.
    pub fn blob(uri: &str, blob: &str) -> (r: ResourceContents)
        ensures
            r matches ResourceContents::Blob(b) && b.uri@ == uri@ && b.blob@ == blob@
                && b.mime_type is None && b._meta is None,
    {
        ResourceContents::Blob(
            BlobResourceContents {
                uri: uri.to_string(),
                mime_type: None,
                blob: blob.to_string(),
                _meta: None,
            },
        )
    }

    /// Contents of the file at `path` whose bytes are `contents`, for `uri`.
    ///
    /// The MIME type is guessed from the path. Text types, and the JSON, XML,
    /// JavaScript and YAML application types, are sent as text when the bytes
    /// are valid UTF-8; everything else is sent base64-encoded.
    pub fn from_file_data(path: &str, uri: &str, contents: Vec<u8>) -> (r: ResourceContents)
        requires
            contents@.len() / 3 * 4 + 4 <= usize::MAX,
        ensures
            ({
                let (top, sub, full) = guessed_mime(path@);
                is_file_contents(top, sub, full, uri@, contents@, r)
            }),
    {
        let (top, sub, full) = guess_mime(path);
        ResourceContents::from_typed_file_data(top, sub, full, uri, contents)
    }

    /// Contents for `uri` of a file whose bytes are `contents` and whose MIME
    /// type is `top`/`sub`, written in full as `full`: text when the type is a
    /// text type and the bytes are valid UTF-8, base64 otherwise.
    pub fn from_typed_file_data(top: String, sub: String, full: String, uri: &str, contents: Vec<u8>) -> (r:
        ResourceContents)
        requires
            contents@.len() / 3 * 4 + 4 <= usize::MAX,
        ensures
            is_file_contents(top@, sub@, full@, uri@, contents@, r),
    {
        proof {
            law_base64_round_trip(contents@);
            if valid_utf8(contents@) {
                decode_utf8_encode_utf8(contents@);
            }
        }
        let is_text_top = same_text(top.as_str(), "text");
        let is_app_top = same_text(top.as_str(), "application");
        let blob = base64_encode(contents.as_slice());
        if is_text_top || is_app_top {
            match utf8_text(contents) {
                Some(text) => {
                    let is_text_app = same_text(sub.as_str(), "json") || same_text(
                        sub.as_str(),
                        "xml",
                    ) || same_text(sub.as_str(), "javascript") || same_text(sub.as_str(), "x-yaml")
                        || same_text(sub.as_str(), "yaml");
                    if is_text_top || is_text_app {
                        ResourceContents::Text(
                            TextResourceContents {
                                uri: uri.to_string(),
                                mime_type: Some(full),
                                text,
                                _meta: None,
                            },
                        )
                    } else {
                        ResourceContents::Blob(
                            BlobResourceContents {
                                uri: uri.to_string(),
                                mime_type: Some(full),
                                blob,
                                _meta: None,
                            },
                        )
                    }
                },
                None => ResourceContents::Blob(
                    BlobResourceContents {
                        uri: uri.to_string(),
                        mime_type: Some(full),
                        blob,
                        _meta: None,
                    },
                ),
            }
        } else {
            ResourceContents::Blob(
                BlobResourceContents { uri: uri.to_string(), mime_type: Some(full), blob, _meta: None },
            )
        }
    }
}

/// Whether `r` is what a file of bytes `contents` with MIME type `top`/`sub`
/// (in full `full`) is sent as for `uri`: its UTF-8 text when the type is a
/// text type and the bytes decode, else its standard base64 encoding; in
/// either case with the full MIME type and no metadata, and in either case
/// decoding what is sent gives the bytes back.
pub open spec fn is_file_contents(
    top: Seq<char>,
    sub: Seq<char>,
    full: Seq<char>,
    uri: Seq<char>,
    contents: Seq<u8>,
    r: ResourceContents,
) -> bool {
    if valid_utf8(contents) && is_text_mime(top, sub) {
        r matches ResourceContents::Text(t) && t.uri@ == uri && is_some_text(t.mime_type, full)
            && t.text@ == decode_utf8(contents) && encode_utf8(t.text@) == contents && t._meta
            is None
    } else {
        r matches ResourceContents::Blob(b) && b.uri@ == uri && is_some_text(b.mime_type, full)
            && b.blob@ == base64_standard(contents) && base64_decode(b.blob@) == contents
            && b._meta is None
    }
}

/// Text contents of a resource.
#[derive(Debug)]
pub struct TextResourceContents {
    /// The URI of this resource.
    pub uri: String,
    /// The MIME type of this resource, if known.
    pub mime_type: Option<String>,
    /// The text of the item.
    pub text: String,
    /// Reserved metadata.
    pub _meta: Option<StrMap<JsonValue>>,
}

impl TextResourceContents {
    /// Text contents for `uri`.
    pub fn new(uri: &str, text: &str) -> (r: TextResourceContents)
        ensures
            r.uri@ == uri@,
            r.text@ == text@,
            r.mime_type is None,
            r._meta is None,
    {
        TextResourceContents { uri: uri.to_string(), mime_type: None, text: text.to_string(), _meta: None }
    }

    /// Sets the MIME type.
    pub fn with_mime_type(self, mime_type: &str) -> (r: TextResourceContents)
        ensures
            r.mime_type matches Some(m) && m@ == mime_type@,
            r.uri == self.uri && r.text == self.text && r._meta == self._meta,
    {
        TextResourceContents { mime_type: Some(mime_type.to_string()), ..self }
    }

    /// Sets the metadata.
    pub fn with_meta(self, meta: StrMap<JsonValue>) -> (r: TextResourceContents)
        ensures
            r._meta == Some(meta),
            r.uri == self.uri && r.text == self.text && r.mime_type == self.mime_type,
    {
        TextResourceContents { _meta: Some(meta), ..self }
    }

    /// Adds a single metadata entry.
    pub fn with_meta_entry(self, key: &str, value: JsonValue) -> (r: TextResourceContents)
        requires
            opt_wf(self._meta),
        ensures
            r._meta matches Some(m) && m.wf() && m.spec_get(key@) == Some(value),
            forall|k: Seq<char>| k != key@ ==> #[trigger] opt_get(r._meta, k) == opt_get(self._meta, k),
            r.uri == self.uri && r.text == self.text && r.mime_type == self.mime_type,
    {
        let m = insert_into(self._meta, key, value);
        TextResourceContents { _meta: Some(m), ..self }
    }
}

/// Binary contents of a resource, base64-encoded.
#[derive(Debug)]
pub struct BlobResourceContents {
    /// The URI of this resource.
    pub uri: String,
    /// The MIME type of this resource, if known.
    pub mime_type: Option<String>,
    /// The base64-encoded data.
    pub blob: String,
    /// Reserved metadata.
    pub _meta: Option<StrMap<JsonValue>>,
}

impl BlobResourceContents {
    /// Binary contents for `uri`.
    pub fn new(uri: &str, blob: &str) -> (r: BlobResourceContents)
        ensures
            r.uri@ == uri@,
            r.blob@ == blob@,
            r.mime_type is None,
            r._meta is None,
    {
        BlobResourceContents { uri: uri.to_string(), mime_type: None, blob: blob.to_string(), _meta: None }
    }

    /// Sets the MIME type.
    pub fn with_mime_type(self, mime_type: &str) -> (r: BlobResourceContents)
        ensures
            r.mime_type matches Some(m) && m@ == mime_type@,
            r.uri == self.uri && r.blob == self.blob && r._meta == self._meta,
    {
        BlobResourceContents { mime_type: Some(mime_type.to_string()), ..self }
    }

    /// Sets the metadata.
    pub fn with_meta(self, meta: StrMap<JsonValue>) -> (r: BlobResourceContents)
        ensures
            r._meta == Some(meta),
            r.uri == self.uri && r.blob == self.blob && r.mime_type == self.mime_type,
    {
        BlobResourceContents { _meta: Some(meta), ..self }
    }

    /// Adds a single metadata entry.
    pub fn with_meta_entry(self, key: &str, value: JsonValue) -> (r: BlobResourceContents)
        requires
            opt_wf(self._meta),
        ensures
            r._meta matches Some(m) && m.wf() && m.spec_get(key@) == Some(value),
            forall|k: Seq<char>| k != key@ ==> #[trigger] opt_get(r._meta, k) == opt_get(self._meta, k),
            r.uri == self.uri && r.blob == self.blob && r.mime_type == self.mime_type,
    {
        let m = insert_into(self._meta, key, value);
        BlobResourceContents { _meta: Some(m), ..self }
    }
}

} // verus!
