//! Filesystem roots a client exposes.
use vstd::prelude::*;

use crate::json::JsonValue;
use crate::map::StrMap;

verus! {

/// The client's response to a roots/list request.
#[derive(Debug)]
pub struct ListRootsResult {
    pub roots: Vec<Root>,
    /// Reserved metadata.
    pub _meta: Option<StrMap<JsonValue>>,
}

/// A root directory or file that the server can operate on.
#[derive(Debug)]
pub struct Root {
    /// The URI identifying the root.
    pub uri: String,
    /// An optional name for the root.
    pub name: Option<String>,
    /// Reserved metadata.
    pub _meta: Option<StrMap<JsonValue>>,
}

} // verus!
