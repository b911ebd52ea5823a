//! The name and version of an MCP implementation.
use vstd::prelude::*;

verus! {

/// Describes the name and version of an MCP implementation.
#[derive(Debug, Clone)]
pub struct Implementation {
    /// The name of the MCP implementation.
    pub name: String,
    pub version: String,
    /// A human-readable title for UI contexts.
    pub title: Option<String>,
}

impl Implementation {
    /// Creates an Implementation with the given name and version.
    pub fn new(name: &str, version: &str) -> (r: Implementation)
        ensures
            r.name@ == name@,
            r.version@ == version@,
            r.title is None,
    {
        Implementation { name: name.to_string(), version: version.to_string(), title: None }
    }

    /// Sets the title.
    pub fn with_title(self, title: &str) -> (r: Implementation)
        ensures
            r.name == self.name,
            r.version == self.version,
            r.title matches Some(t) && t@ == title@,
    {
        Implementation { title: Some(title.to_string()), ..self }
    }
}

} // verus!
