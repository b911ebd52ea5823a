# tenx-mcp

A Model Context Protocol (MCP) library: JSON-RPC 2.0 messages between AI
clients and tool servers, with stdio, TCP and streamable HTTP transports and
OAuth 2.0 client support.

## Layout

- `src/` is the verified library, written in Verus. It holds the protocol's
  data types and their builders, the newline-delimited JSON-RPC framing, the
  routing and error-mapping decisions of the server loop, the HTTP transport's
  session and request/response routing rules, the OAuth token and callback
  logic, the dynamic client registration rules, and the rules by which the
  `#[mcp_server]` attribute turns an impl block into tool listings. Verus
  checks every function there against its contract (a few constructors of
  field-less or opaque values state nothing); the `law_*` proof functions
  state properties that span several functions.
- Calls into outside crates (base64, mime_guess, url, uuid, heck, reqwest)
  go through small trusted wrappers whose contracts say what the crate's
  documentation promises.
- `app/` is the asynchronous shell around the library: tokio transports,
  axum and reqwest HTTP plumbing, serde wire types, and the OAuth flows that
  talk to the network. It hands the library plain values and acts on the
  decisions it returns.
- `tests/` exercises the library on concrete values.

## Design notes

- The HTTP server's session table and its table of which session sent each
  request are the library's `StrMap` and `RequestRouter`, held in app/ behind
  a lock. A concurrent map that changes through shared references would leave
  those changes outside what a contract can describe.
- The server's loop does not keep a table of requests it sends to the
  client: responses and errors from the client are routed apart from
  requests and are not answered.
