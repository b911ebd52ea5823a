//! Transports: where framed messages are read from and written to.
use vstd::prelude::*;

use crate::error::Error;

verus! {

/// Standard I/O transport: messages on stdin and stdout.
#[derive(Debug, Clone, Copy)]
pub struct StdioTransport;

impl StdioTransport {
    /// The stdio transport.
    pub fn new() -> (t: StdioTransport) {
        StdioTransport
    }
}

impl Default for StdioTransport {
    fn default() -> (t: StdioTransport) {
        StdioTransport::new()
    }
}

/// A transport over a stream that is already connected; the stream can be
/// taken once, to frame it.
#[derive(Debug)]
pub struct StreamTransport<S> {
    stream: Option<S>,
}

impl<S> StreamTransport<S> {
    /// The stream this transport still holds, if any.
    pub closed spec fn held(self) -> Option<S> {
        self.stream
    }

    /// A transport holding `stream`.
    pub fn new(stream: S) -> (t: StreamTransport<S>)
        ensures
            t.held() == Some(stream),
    {
        StreamTransport { stream: Some(stream) }
    }

    /// Takes the stream to frame it; a transport whose stream was already
    /// taken is disconnected.
    pub fn take_stream(&mut self) -> (r: Result<S, Error>)
        ensures
            match old(self).held() {
                Some(s) => r == Ok::<S, Error>(s),
                None => r == Err::<S, Error>(Error::TransportDisconnected),
            },
            final(self).held() is None,
    {
        match self.stream.take() {
            Some(s) => Ok(s),
            None => Err(Error::TransportDisconnected),
        }
    }
}

/// A TCP client transport: the address it connects to and, once connected,
/// the stream.
#[derive(Debug)]
pub struct TcpClientTransport<S> {
    addr: String,
    stream: Option<S>,
}

impl<S> TcpClientTransport<S> {
    /// The address this transport connects to.
    pub closed spec fn spec_addr(self) -> Seq<char> {
        self.addr@
    }

    /// The stream this transport holds, if connected.
    pub closed spec fn held(self) -> Option<S> {
        self.stream
    }

    /// A transport that will connect to `addr`.
    pub fn new(addr: &str) -> (t: TcpClientTransport<S>)
        ensures
            t.spec_addr() == addr@,
            t.held() is None,
    {
        TcpClientTransport { addr: addr.to_string(), stream: None }
    }

    /// The address this transport connects to.
    pub fn addr(&self) -> (a: &str)
        ensures
            a@ == self.spec_addr(),
    {
        self.addr.as_str()
    }

    /// Records the stream of an established connection.
    pub fn connected(&mut self, stream: S)
        ensures
            final(self).held() == Some(stream),
            final(self).spec_addr() == old(self).spec_addr(),
    {
        self.stream = Some(stream);
    }

    /// Takes the stream to frame it; a transport that never connected is
    /// disconnected.
    pub fn take_stream(&mut self) -> (r: Result<S, Error>)
        ensures
            match old(self).held() {
                Some(s) => r == Ok::<S, Error>(s),
                None => r == Err::<S, Error>(Error::TransportDisconnected),
            },
            final(self).held() is None,
            final(self).spec_addr() == old(self).spec_addr(),
    {
        match self.stream.take() {
            Some(s) => Ok(s),
            None => Err(Error::TransportDisconnected),
        }
    }
}

} // verus!
