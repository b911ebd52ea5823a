use tenx_mcp::error::Error;
use tenx_mcp::transport::{StdioTransport, StreamTransport, TcpClientTransport};

#[test]
fn test_stdio_transport_creation() {
    let _transport = StdioTransport::new();
    // Just ensure it can be created
}

#[test]
fn tcp_client_transport_keeps_its_address() {
    let transport: TcpClientTransport<u8> = TcpClientTransport::new("localhost:8080");
    assert_eq!(transport.addr(), "localhost:8080");
}

#[test]
fn tcp_client_transport_without_connection_is_disconnected() {
    let mut transport: TcpClientTransport<u8> = TcpClientTransport::new("localhost:8080");
    assert!(matches!(transport.take_stream(), Err(Error::TransportDisconnected)));
    transport.connected(7);
    assert!(matches!(transport.take_stream(), Ok(7)));
    assert!(matches!(transport.take_stream(), Err(Error::TransportDisconnected)));
}

#[test]
fn stream_transport_yields_its_stream_once() {
    let mut transport = StreamTransport::new(String::from("duplex"));
    match transport.take_stream() {
        Ok(s) => assert_eq!(s, "duplex"),
        Err(e) => panic!("unexpected error {e:?}"),
    }
    assert!(matches!(transport.take_stream(), Err(Error::TransportDisconnected)));
}
