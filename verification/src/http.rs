//! Decisions of the HTTP transport: the protocol-version and session checks
//! that answer each POST and GET, the headers a client sends, and which
//! session receives each message the server writes.
use vstd::prelude::*;

use crate::error::Error;
use crate::map::StrMap;
use crate::schema::jsonrpc::{same_request_id, JSONRPCMessage, RequestId};
use crate::text::{contains_text, join2, occurs_at, same_text};

verus! {

/// The protocol version the HTTP transport speaks and checks for.
pub const MCP_PROTOCOL_VERSION: &'static str = "2025-06-18";

/// The header that carries the protocol version.
pub const PROTOCOL_VERSION_HEADER: &'static str = "MCP-Protocol-Version";

/// The header that carries the session id.
pub const SESSION_ID_HEADER: &'static str = "Mcp-Session-Id";

/// HTTP 202 Accepted.
pub const STATUS_ACCEPTED: u16 = 202;

/// HTTP 400 Bad Request.
pub const STATUS_BAD_REQUEST: u16 = 400;

/// HTTP 404 Not Found.
pub const STATUS_NOT_FOUND: u16 = 404;

/// HTTP 405 Method Not Allowed.
pub const STATUS_METHOD_NOT_ALLOWED: u16 = 405;

/// HTTP 408 Request Timeout.
pub const STATUS_REQUEST_TIMEOUT: u16 = 408;

/// HTTP 500 Internal Server Error.
pub const STATUS_INTERNAL_SERVER_ERROR: u16 = 500;

/// Whether a message is the `initialize` request.
pub open spec fn is_initialize_message(m: JSONRPCMessage) -> bool {
    m matches JSONRPCMessage::Request(r) && r.request.method@ == "initialize"@
}

/// Whether `m` is the `initialize` request.
pub fn is_initialize(m: &JSONRPCMessage) -> (r: bool)
    ensures
        r == is_initialize_message(*m),
{
    match m {
        JSONRPCMessage::Request(req) => same_text(req.request.method.as_str(), "initialize"),
        _ => false,
    }
}

/// Whether a protocol-version header, if sent, names the version this
/// transport speaks.
pub open spec fn version_accepted(version: Option<Seq<char>>) -> bool {
    match version {
        Some(v) => v == MCP_PROTOCOL_VERSION@,
        None => true,
    }
}

/// Whether the protocol-version header `version` is absent or names the
/// version this transport speaks.
pub fn check_protocol_version(version: Option<&str>) -> (r: bool)
    ensures
        r == version_accepted(
            match version {
                Some(v) => Some(v@),
                None => None,
            },
        ),
{
    match version {
        Some(v) => same_text(v, MCP_PROTOCOL_VERSION),
        None => true,
    }
}

/// Whether an Accept header asks for an event stream.
pub fn accepts_event_stream(accept: Option<&str>) -> (r: bool)
    ensures
        r == match accept {
            Some(a) => exists|i: int| occurs_at(a@, "text/event-stream"@, i),
            None => false,
        },
{
    match accept {
        Some(a) => contains_text(a, "text/event-stream"),
        None => false,
    }
}

/// Whether `s` is a lowercase hyphenated UUID text of version 4.
pub open spec fn is_uuid_v4_text(s: Seq<char>) -> bool {
    &&& s.len() == 36
    &&& forall|i: int|
        0 <= i < 36 ==> if i == 8 || i == 13 || i == 18 || i == 23 {
            #[trigger] s[i] == '-'
        } else {
            ('0' <= s[i] <= '9') || ('a' <= s[i] <= 'f')
        }
    &&& s[14] == '4'
}

/// A fresh session id: a random version-4 UUID in its hyphenated form
/// (`uuid::Uuid::new_v4`, then `to_string`). What is stated is the shape of
/// every such text; which one comes back is left to chance.
#[verifier::external_body]
fn new_session_id() -> (s: String)
    ensures
        is_uuid_v4_text(s@),
{
    uuid::Uuid::new_v4().to_string()
}

/// A fresh session id: a random version-4 UUID in its hyphenated form.
pub fn new_session() -> (s: String)
    ensures
        is_uuid_v4_text(s@),
{
    new_session_id()
}

/// What an HTTP POST is answered with.
#[derive(Debug)]
pub enum PostAction {
    /// Answer at once with this status and text.
    Reject { status: u16, body: &'static str },
    /// Open the session, hand the `initialize` request to the server, and
    /// answer with its response and the session id header.
    StartSession { session_id: String },
    /// Hand the request to the server and stream the session's messages as
    /// server-sent events until the response.
    ForwardAndStream { session_id: String },
    /// Hand the request to the server and answer with its response.
    ForwardAndWait { session_id: String },
    /// Hand the message to the server and answer 202 Accepted.
    ForwardAccepted { session_id: String },
}

/// The answer to a POST that carries no `initialize` request, given the
/// request's protocol-version header, session header, whether the session is
/// known and whether the client accepts an event stream.
pub open spec fn post_answer(
    version: Option<Seq<char>>,
    session: Option<Seq<char>>,
    known: bool,
    message: JSONRPCMessage,
    event_stream: bool,
    action: PostAction,
) -> bool {
    if !version_accepted(version) {
        action == (PostAction::Reject { status: STATUS_BAD_REQUEST, body: "Unsupported protocol version" })
    } else if session is None {
        action == (PostAction::Reject { status: STATUS_BAD_REQUEST, body: "Missing session ID" })
    } else if !known {
        action == (PostAction::Reject { status: STATUS_NOT_FOUND, body: "Session not found" })
    } else {
        match message {
            JSONRPCMessage::Request(_) => if event_stream {
                action matches PostAction::ForwardAndStream { session_id } && session == Some(
                    session_id@,
                )
            } else {
                action matches PostAction::ForwardAndWait { session_id } && session == Some(
                    session_id@,
                )
            },
            JSONRPCMessage::Response(_) | JSONRPCMessage::Notification(_) => action matches PostAction::ForwardAccepted { session_id } && session == Some(session_id@),
            _ => action == (PostAction::Reject { status: STATUS_BAD_REQUEST, body: "Batch operations not supported" }),
        }
    }
}

/// Decides how to answer a POST carrying `message`, given its
/// protocol-version header, session header and Accept header, and the
/// sessions the server knows.
pub fn post_action<V>(
    version: Option<&str>,
    session: Option<String>,
    accept: Option<&str>,
    message: &JSONRPCMessage,
    sessions: &StrMap<V>,
) -> (r: PostAction)
    requires
        sessions.wf(),
    ensures
        is_initialize_message(*message) && version_accepted(
            match version {
                Some(v) => Some(v@),
                None => None,
            },
        ) ==> (r matches PostAction::StartSession { session_id } && match session {
            Some(s) => session_id@ == s@,
            None => is_uuid_v4_text(session_id@),
        }),
        !is_initialize_message(*message) || !version_accepted(
            match version {
                Some(v) => Some(v@),
                None => None,
            },
        ) ==> post_answer(
            match version {
                Some(v) => Some(v@),
                None => None,
            },
            match session {
                Some(s) => Some(s@),
                None => None,
            },
            match session {
                Some(s) => sessions.contains(s@),
                None => false,
            },
            *message,
            match accept {
                Some(a) => exists|i: int| occurs_at(a@, "text/event-stream"@, i),
                None => false,
            },
            r,
        ),
{
    if !check_protocol_version(version) {
        return PostAction::Reject { status: STATUS_BAD_REQUEST, body: "Unsupported protocol version" };
    }
    if is_initialize(message) {
        let session_id = match session {
            Some(s) => s,
            None => new_session_id(),
        };
        return PostAction::StartSession { session_id };
    }
    let session_id = match session {
        Some(s) => s,
        None => {
            return PostAction::Reject { status: STATUS_BAD_REQUEST, body: "Missing session ID" };
        },
    };
    if !sessions.contains_key(session_id.as_str()) {
        return PostAction::Reject { status: STATUS_NOT_FOUND, body: "Session not found" };
    }
    match message {
        JSONRPCMessage::Request(_) => {
            if accepts_event_stream(accept) {
                PostAction::ForwardAndStream { session_id }
            } else {
                PostAction::ForwardAndWait { session_id }
            }
        },
        JSONRPCMessage::Response(_) | JSONRPCMessage::Notification(_) => {
            PostAction::ForwardAccepted { session_id }
        },
        _ => PostAction::Reject { status: STATUS_BAD_REQUEST, body: "Batch operations not supported" },
    }
}

/// How waiting for the server's answer to a forwarded request ended.
#[derive(Debug, Clone, Copy, PartialEq, Eq, Structural)]
pub enum WaitOutcome {
    /// The server answered.
    Answered,
    /// The session's channel closed without an answer.
    ChannelClosed,
    /// No answer came in time.
    TimedOut,
}

/// The status and text that answer a forwarded request whose wait ended
/// without an answer; `None` when the server answered and its response is
/// sent instead.
pub fn wait_failure(outcome: WaitOutcome, initializing: bool) -> (r: Option<(u16, &'static str)>)
    ensures
        outcome == WaitOutcome::Answered ==> r is None,
        outcome == WaitOutcome::ChannelClosed && initializing ==> r == Some(
            (STATUS_INTERNAL_SERVER_ERROR, "No response from server"),
        ),
        outcome == WaitOutcome::ChannelClosed && !initializing ==> r == Some(
            (STATUS_INTERNAL_SERVER_ERROR, "No response"),
        ),
        outcome == WaitOutcome::TimedOut && initializing ==> r == Some(
            (STATUS_REQUEST_TIMEOUT, "Initialization timeout"),
        ),
        outcome == WaitOutcome::TimedOut && !initializing ==> r == Some(
            (STATUS_REQUEST_TIMEOUT, "Request timeout"),
        ),
{
    match outcome {
        WaitOutcome::Answered => None,
        WaitOutcome::ChannelClosed => if initializing {
            Some((STATUS_INTERNAL_SERVER_ERROR, "No response from server"))
        } else {
            Some((STATUS_INTERNAL_SERVER_ERROR, "No response"))
        },
        WaitOutcome::TimedOut => if initializing {
            Some((STATUS_REQUEST_TIMEOUT, "Initialization timeout"))
        } else {
            Some((STATUS_REQUEST_TIMEOUT, "Request timeout"))
        },
    }
}

/// Whether the event stream that answers a POSTed request ends after
/// sending `message`: it ends with the first response.
pub fn ends_request_stream(message: &JSONRPCMessage) -> (r: bool)
    ensures
        r == (*message is Response),
{
    match message {
        JSONRPCMessage::Response(_) => true,
        _ => false,
    }
}

/// What an HTTP GET is answered with.
#[derive(Debug)]
pub enum GetAction {
    /// Answer at once with this status and text.
    Reject { status: u16, body: &'static str },
    /// Stream the session's messages as server-sent events.
    Stream { session_id: String },
}

/// Decides how to answer a GET, given its protocol-version and session
/// headers and the sessions the server knows.
pub fn get_action<V>(version: Option<&str>, session: Option<String>, sessions: &StrMap<V>) -> (r:
    GetAction)
    requires
        sessions.wf(),
    ensures
        !version_accepted(
            match version {
                Some(v) => Some(v@),
                None => None,
            },
        ) ==> r == (GetAction::Reject { status: STATUS_BAD_REQUEST, body: "Unsupported protocol version" }),
        version_accepted(
            match version {
                Some(v) => Some(v@),
                None => None,
            },
        ) ==> match session {
            None => r == (GetAction::Reject { status: STATUS_BAD_REQUEST, body: "Missing session ID" }),
            Some(s) => if sessions.contains(s@) {
                r matches GetAction::Stream { session_id } && session_id@ == s@
            } else {
                r == (GetAction::Reject { status: STATUS_NOT_FOUND, body: "Session not found" })
            },
        },
{
    if !check_protocol_version(version) {
        return GetAction::Reject { status: STATUS_BAD_REQUEST, body: "Unsupported protocol version" };
    }
    match session {
        None => GetAction::Reject { status: STATUS_BAD_REQUEST, body: "Missing session ID" },
        Some(s) => {
            if sessions.contains_key(s.as_str()) {
                GetAction::Stream { session_id: s }
            } else {
                GetAction::Reject { status: STATUS_NOT_FOUND, body: "Session not found" }
            }
        },
    }
}

/// Remembers which session sent each request the server is answering, so
/// that each response goes back to the session that asked.
#[derive(Debug)]
pub struct RequestRouter {
    pending: Vec<(RequestId, String)>,
}

/// Whether some pending entry is for the request `id`.
pub open spec fn has_pending(entries: Seq<(RequestId, String)>, id: RequestId) -> bool {
    exists|i: int| 0 <= i < entries.len() && same_request_id(#[trigger] entries[i].0, id)
}

/// The session waiting for the answer to `id`, if any.
pub open spec fn pending_session(entries: Seq<(RequestId, String)>, id: RequestId) -> Option<
    Seq<char>,
> {
    if has_pending(entries, id) {
        Some(
            entries[choose|i: int|
                0 <= i < entries.len() && same_request_id(#[trigger] entries[i].0, id)].1@,
        )
    } else {
        None
    }
}

/// No request id is pending twice.
pub open spec fn distinct_ids(entries: Seq<(RequestId, String)>) -> bool {
    forall|i: int, j: int|
        0 <= i < entries.len() && 0 <= j < entries.len() && i != j ==> !same_request_id(
            #[trigger] entries[i].0,
            #[trigger] entries[j].0,
        )
}

/// `same_request_id` is an equivalence.
proof fn lemma_same_request_id(a: RequestId, b: RequestId, c: RequestId)
    ensures
        same_request_id(a, a),
        same_request_id(a, b) ==> same_request_id(b, a),
        same_request_id(a, b) && same_request_id(b, c) ==> same_request_id(a, c),
{
}

/// With distinct ids, the session pending for the id of entry `i` is that entry's.
proof fn lemma_pending_at(entries: Seq<(RequestId, String)>, i: int, id: RequestId)
    requires
        distinct_ids(entries),
        0 <= i < entries.len(),
        same_request_id(entries[i].0, id),
    ensures
        pending_session(entries, id) == Some(entries[i].1@),
{
    assert(has_pending(entries, id));
    let j = choose|j: int| 0 <= j < entries.len() && same_request_id(#[trigger] entries[j].0, id);
    if j != i {
        lemma_same_request_id(entries[j].0, id, entries[i].0);
        lemma_same_request_id(id, entries[i].0, entries[i].0);
        assert(same_request_id(entries[i].0, entries[j].0));
    }
}

impl RequestRouter {
    /// The pending entries, oldest first.
    pub closed spec fn entries(self) -> Seq<(RequestId, String)> {
        self.pending@
    }

    /// Well-formedness: no request id is pending twice.
    pub open spec fn wf(self) -> bool {
        distinct_ids(self.entries())
    }

    /// The session waiting for the answer to `id`, if any.
    pub open spec fn session_for(self, id: RequestId) -> Option<Seq<char>> {
        pending_session(self.entries(), id)
    }

    /// A router with nothing pending.
    pub fn new() -> (r: RequestRouter)
        ensures
            r.wf(),
            forall|id: RequestId| #[trigger] r.session_for(id) is None,
    {
        RequestRouter { pending: Vec::new() }
    }

    /// Position of the entry for `id`, if any.
    fn find(&self, id: &RequestId) -> (r: Option<usize>)
        requires
            self.wf(),
        ensures
            match r {
                Some(i) => i < self.entries().len() && same_request_id(
                    self.entries()[i as int].0,
                    *id,
                ),
                None => !has_pending(self.entries(), *id),
            },
    {
        let mut i: usize = 0;
        while i < self.pending.len()
            invariant
                i <= self.pending@.len(),
                forall|j: int| 0 <= j < i ==> !same_request_id(#[trigger] self.pending@[j].0, *id),
            decreases self.pending@.len() - i,
        {
            if self.pending[i].0.same_as(id) {
                return Some(i);
            }
            i = i + 1;
        }
        None
    }

    /// Remembers that `session` sent the request `id`; a later request with
    /// the same id replaces the earlier one.
    pub fn record(&mut self, id: RequestId, session: String)
        requires
            old(self).wf(),
        ensures
            final(self).wf(),
            final(self).session_for(id) == Some(session@),
            forall|other: RequestId|
                !same_request_id(other, id) ==> #[trigger] final(self).session_for(other)
                    == old(self).session_for(other),
    {
        let ghost sid = session@;
        let ghost key = id;
        let ghost mut at: int = 0;
        match self.find(&id) {
            Some(i) => {
                self.pending.set(i, (id, session));
                proof {
                    at = i as int;
                }
            },
            None => {
                proof {
                    at = self.pending@.len() as int;
                }
                self.pending.push((id, session));
            },
        }
        proof {
            let e = self.pending@;
            let e0 = old(self).pending@;
            let n = e0.len() as int;
            assert(e[at].0 == key && e[at].1@ == sid);
            assert(forall|j: int| 0 <= j < e.len() && j != at ==> e[j] == #[trigger] e0[j]);
            assert forall|a: int, b: int|
                0 <= a < e.len() && 0 <= b < e.len() && a != b implies !same_request_id(
                #[trigger] e[a].0,
                #[trigger] e[b].0,
            ) by {
                if a != at && b != at {
                    assert(e[a] == e0[a]);
                    assert(e[b] == e0[b]);
                } else if a == at {
                    assert(e[b] == e0[b]);
                    lemma_same_request_id(e[a].0, e[b].0, e[a].0);
                    if at < n {
                        lemma_same_request_id(e0[at].0, key, e[b].0);
                    }
                } else {
                    assert(e[a] == e0[a]);
                    lemma_same_request_id(e[a].0, e[b].0, e[a].0);
                    if at < n {
                        lemma_same_request_id(e0[at].0, key, e[a].0);
                        lemma_same_request_id(e[a].0, e0[at].0, key);
                    }
                }
            }
            lemma_same_request_id(key, key, key);
            lemma_pending_at(e, at, key);
            assert forall|other: RequestId| !same_request_id(other, key) implies #[trigger] pending_session(
                e,
                other,
            ) == pending_session(e0, other) by {
                if has_pending(e0, other) {
                    let j = choose|j: int|
                        0 <= j < e0.len() && same_request_id(#[trigger] e0[j].0, other);
                    lemma_pending_at(e0, j, other);
                    if j == at {
                        lemma_same_request_id(e0[at].0, key, other);
                        lemma_same_request_id(key, e0[at].0, other);
                        lemma_same_request_id(e0[at].0, other, key);
                        lemma_same_request_id(other, e0[at].0, key);
                    }
                    assert(e[j] == e0[j]);
                    lemma_pending_at(e, j, other);
                } else {
                    assert forall|j: int| 0 <= j < e.len() implies !same_request_id(
                        #[trigger] e[j].0,
                        other,
                    ) by {
                        if j != at {
                            assert(e[j] == e0[j]);
                        } else {
                            lemma_same_request_id(key, other, key);
                            lemma_same_request_id(other, key, other);
                        }
                    }
                }
            }
        }
    }

    /// Takes the session waiting for the answer to `id`; the request is no
    /// longer pending afterwards.
    pub fn take(&mut self, id: &RequestId) -> (r: Option<String>)
        requires
            old(self).wf(),
        ensures
            final(self).wf(),
            match r {
                Some(s) => old(self).session_for(*id) == Some(s@),
                None => old(self).session_for(*id) is None,
            },
            final(self).session_for(*id) is None,
            forall|other: RequestId|
                !same_request_id(other, *id) ==> #[trigger] final(self).session_for(other)
                    == old(self).session_for(other),
    {
        match self.find(id) {
            Some(i) => {
                proof {
                    lemma_pending_at(self.pending@, i as int, *id);
                }
                let ghost e0 = self.pending@;
                let (_, s) = self.pending.remove(i);
                proof {
                    let e = self.pending@;
                    assert(e =~= e0.remove(i as int));
                    assert forall|a: int, b: int|
                        0 <= a < e.len() && 0 <= b < e.len() && a != b implies !same_request_id(
                        #[trigger] e[a].0,
                        #[trigger] e[b].0,
                    ) by {
                        let a0 = if a < i {
                            a
                        } else {
                            a + 1
                        };
                        let b0 = if b < i {
                            b
                        } else {
                            b + 1
                        };
                        assert(e[a] == e0[a0]);
                        assert(e[b] == e0[b0]);
                    }
                    assert forall|j: int| 0 <= j < e.len() implies !same_request_id(
                        #[trigger] e[j].0,
                        *id,
                    ) by {
                        let j0 = if j < i {
                            j
                        } else {
                            j + 1
                        };
                        assert(e[j] == e0[j0]);
                        if same_request_id(e0[j0].0, *id) {
                            lemma_same_request_id(e0[j0].0, *id, e0[i as int].0);
                            lemma_same_request_id(e0[i as int].0, *id, *id);
                            lemma_same_request_id(*id, e0[i as int].0, e0[i as int].0);
                        }
                    }
                    assert forall|other: RequestId| !same_request_id(other, *id) implies #[trigger] pending_session(
                        e,
                        other,
                    ) == pending_session(e0, other) by {
                        if has_pending(e0, other) {
                            let j = choose|j: int|
                                0 <= j < e0.len() && same_request_id(#[trigger] e0[j].0, other);
                            lemma_pending_at(e0, j, other);
                            if j == i {
                                lemma_same_request_id(e0[j].0, *id, other);
                                lemma_same_request_id(*id, e0[j].0, other);
                                lemma_same_request_id(e0[j].0, other, *id);
                                lemma_same_request_id(other, e0[j].0, *id);
                            }
                            let j1 = if j < i {
                                j
                            } else {
                                j - 1
                            };
                            assert(e[j1] == e0[j]);
                            lemma_pending_at(e, j1, other);
                        } else {
                            assert forall|j: int| 0 <= j < e.len() implies !same_request_id(
                                #[trigger] e[j].0,
                                other,
                            ) by {
                                let j0 = if j < i {
                                    j
                                } else {
                                    j + 1
                                };
                                assert(e[j] == e0[j0]);
                            }
                        }
                    }
                }
                Some(s)
            },
            None => None,
        }
    }

    /// Notes a message read from `session`: a request is remembered as
    /// waiting for its answer; other messages change nothing.
    pub fn note_incoming(&mut self, message: &JSONRPCMessage, session: String)
        requires
            old(self).wf(),
        ensures
            final(self).wf(),
            match *message {
                JSONRPCMessage::Request(req) => final(self).session_for(req.id) == Some(session@)
                    && forall|other: RequestId|
                    !same_request_id(other, req.id) ==> #[trigger] final(self).session_for(other)
                        == old(self).session_for(other),
                _ => final(self).entries() == old(self).entries(),
            },
    {
        match message {
            JSONRPCMessage::Request(req) => {
                self.record(req.id.duplicate(), session);
            },
            _ => {},
        }
    }

    /// Decides who receives a message the server writes: a response goes to
    /// the session that sent its request, once; every other message goes to
    /// all sessions.
    pub fn route_outgoing(&mut self, message: &JSONRPCMessage) -> (r: Delivery)
        requires
            old(self).wf(),
        ensures
            final(self).wf(),
            match *message {
                JSONRPCMessage::Response(resp) => (match old(self).session_for(resp.id) {
                    Some(s) => r matches Delivery::ToSession(t) && t@ == s,
                    None => r == Delivery::Nowhere,
                }) && final(self).session_for(resp.id) is None && forall|other: RequestId|
                    !same_request_id(other, resp.id) ==> #[trigger] final(self).session_for(other)
                        == old(self).session_for(other),
                _ => r == Delivery::Everyone && final(self).entries() == old(self).entries(),
            },
    {
        match message {
            JSONRPCMessage::Response(resp) => match self.take(&resp.id) {
                Some(s) => Delivery::ToSession(s),
                None => Delivery::Nowhere,
            },
            _ => Delivery::Everyone,
        }
    }
}

/// Who receives a message the server writes.
#[derive(Debug, PartialEq, Eq)]
pub enum Delivery {
    /// The session with this id.
    ToSession(String),
    /// Every open session.
    Everyone,
    /// Nobody: a response whose request is not pending.
    Nowhere,
}

/// Law: answering a request undoes noting it. After a request `id` from
/// `session` is noted (`note_incoming`) and its response routed
/// (`route_outgoing`), the response went to `session`, the request is no
/// longer pending, and every other pending request is as it was before.
pub proof fn law_response_returns_to_requester(
    before: RequestRouter,
    noted: RequestRouter,
    routed: RequestRouter,
    id: RequestId,
    session: Seq<char>,
    delivered_to: Option<Seq<char>>,
)
    requires
        noted.session_for(id) == Some(session),
        forall|other: RequestId|
            !same_request_id(other, id) ==> #[trigger] noted.session_for(other)
                == before.session_for(other),
        delivered_to == noted.session_for(id),
        routed.session_for(id) is None,
        forall|other: RequestId|
            !same_request_id(other, id) ==> #[trigger] routed.session_for(other)
                == noted.session_for(other),
    ensures
        delivered_to == Some(session),
        routed.session_for(id) is None,
        forall|other: RequestId|
            !same_request_id(other, id) ==> #[trigger] routed.session_for(other)
                == before.session_for(other),
{
}

/// Law: requests with different ids are routed apart. When a request with
/// string id `a` is noted from `first` and then a request with a different
/// string id `b` from `second`, the response to `a` still goes to `first`.
pub proof fn law_distinct_requests_keep_their_sessions(
    noted_a: RequestRouter,
    noted_b: RequestRouter,
    a: String,
    b: String,
    first: Seq<char>,
    second: Seq<char>,
)
    requires
        a@ != b@,
        noted_a.session_for(RequestId::String(a)) == Some(first),
        noted_b.session_for(RequestId::String(b)) == Some(second),
        forall|other: RequestId|
            !same_request_id(other, RequestId::String(b)) ==> #[trigger] noted_b.session_for(other)
                == noted_a.session_for(other),
    ensures
        noted_b.session_for(RequestId::String(a)) == Some(first),
{
}

/// The headers a client sends: with `event_stream` the ones that open the
/// server's event stream, otherwise the ones of a JSON POST; the session
/// header joins them once a session is open.
pub fn client_headers(session: Option<&str>, event_stream: bool) -> (r: Vec<(String, String)>)
    ensures
        r@.len() == (if event_stream {
            2nat
        } else {
            3nat
        }) + (if session is Some {
            1nat
        } else {
            0nat
        }),
        event_stream ==> r@[0].0@ == "accept"@ && r@[0].1@ == "text/event-stream"@,
        event_stream ==> r@[1].0@ == PROTOCOL_VERSION_HEADER@ && r@[1].1@
            == MCP_PROTOCOL_VERSION@,
        !event_stream ==> r@[0].0@ == "content-type"@ && r@[0].1@ == "application/json"@,
        !event_stream ==> r@[1].0@ == "accept"@ && r@[1].1@ == "application/json"@,
        !event_stream ==> r@[2].0@ == PROTOCOL_VERSION_HEADER@ && r@[2].1@
            == MCP_PROTOCOL_VERSION@,
        match session {
            Some(s) => r@.last().0@ == SESSION_ID_HEADER@ && r@.last().1@ == s@,
            None => true,
        },
{
    let mut headers: Vec<(String, String)> = Vec::new();
    if event_stream {
        headers.push(("accept".to_string(), "text/event-stream".to_string()));
    } else {
        headers.push(("content-type".to_string(), "application/json".to_string()));
        headers.push(("accept".to_string(), "application/json".to_string()));
    }
    headers.push((PROTOCOL_VERSION_HEADER.to_string(), MCP_PROTOCOL_VERSION.to_string()));
    match session {
        Some(s) => {
            headers.push((SESSION_ID_HEADER.to_string(), s.to_string()));
        },
        None => {},
    }
    headers
}

/// The session a client keeps after posting a message: the session id the
/// server returned for an `initialize` request, the current one otherwise.
pub fn session_after_post(
    current: Option<String>,
    was_initialize: bool,
    returned: Option<String>,
) -> (r: Option<String>)
    ensures
        was_initialize && returned is Some ==> r == returned,
        !(was_initialize && returned is Some) ==> r == current,
{
    if was_initialize {
        match returned {
            Some(s) => Some(s),
            None => current,
        }
    } else {
        current
    }
}

/// What a client does with the HTTP answer to a message it posted.
#[derive(Debug, Clone, Copy, PartialEq, Eq, Structural)]
pub enum PostReply {
    /// Read the body as the response message and hand it on.
    ForwardBody,
    /// The server refused the message: report the status.
    ReportFailure,
    /// Nothing to do.
    Ignore,
}

/// Whether an HTTP status is a success (2xx).
pub open spec fn is_success_status(status: u16) -> bool {
    200 <= status <= 299
}

/// What a client does with the answer, of status `status`, to the message
/// `message` it posted: a request's successful answer carries its response.
pub fn post_reply(message: &JSONRPCMessage, status: u16) -> (r: PostReply)
    ensures
        r == match *message {
            JSONRPCMessage::Request(_) => if is_success_status(status) {
                PostReply::ForwardBody
            } else {
                PostReply::ReportFailure
            },
            JSONRPCMessage::Notification(_) | JSONRPCMessage::Response(_) => if is_success_status(
                status,
            ) {
                PostReply::Ignore
            } else {
                PostReply::ReportFailure
            },
            _ => PostReply::Ignore,
        },
{
    let success = 200 <= status && status <= 299;
    match message {
        JSONRPCMessage::Request(_) => if success {
            PostReply::ForwardBody
        } else {
            PostReply::ReportFailure
        },
        JSONRPCMessage::Notification(_) | JSONRPCMessage::Response(_) => if success {
            PostReply::Ignore
        } else {
            PostReply::ReportFailure
        },
        _ => PostReply::Ignore,
    }
}

/// The outcome of a client's request for the server's event stream, whose
/// answer has status `status` (written out as `status_text`): `Ok(false)`
/// when the server offers no stream, `Ok(true)` when the stream is open, and
/// a transport error for any other failure.
pub fn event_stream_outcome(status: u16, status_text: &str) -> (r: Result<bool, Error>)
    ensures
        status == STATUS_METHOD_NOT_ALLOWED ==> r == Ok::<bool, Error>(false),
        status != STATUS_METHOD_NOT_ALLOWED && is_success_status(status) ==> r == Ok::<
            bool,
            Error,
        >(true),
        status != STATUS_METHOD_NOT_ALLOWED && !is_success_status(status) ==> (r matches Err(
            Error::Transport(m),
        ) && m@ == "SSE connection failed with status: "@ + status_text@),
{
    if status == STATUS_METHOD_NOT_ALLOWED {
        Ok(false)
    } else if 200 <= status && status <= 299 {
        Ok(true)
    } else {
        Err(Error::Transport(join2("SSE connection failed with status: ", status_text)))
    }
}

} // verus!
