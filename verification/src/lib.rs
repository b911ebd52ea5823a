//! Verified core of an MCP (Model Context Protocol) library.
pub mod arguments;
pub mod auth;
pub mod codec;
pub mod connection;
pub mod context;
pub mod error;
pub mod http;
pub mod json;
pub mod map;
pub mod schema;
pub mod server;
pub mod server_macro;
pub mod text;
pub mod transport;
