use tenx_mcp::codec::JsonRpcCodec;

#[test]
fn encode_then_decode_gives_frame_back() {
    let mut codec = JsonRpcCodec::new();
    let mut buf = Vec::new();
    codec.encode_frame(br#"{"jsonrpc":"2.0","id":"test-1","method":"initialize"}"#, &mut buf);
    codec.encode_frame(b"{}", &mut buf);
    assert_eq!(buf.last(), Some(&b'\n'));
    let first = codec.decode_frame(&mut buf).unwrap();
    assert_eq!(first, br#"{"jsonrpc":"2.0","id":"test-1","method":"initialize"}"#.to_vec());
    assert_eq!(codec.decode_frame(&mut buf), Some(b"{}".to_vec()));
    assert!(buf.is_empty());
    assert_eq!(codec.decode_frame(&mut buf), None);
}

#[test]
fn partial_frame_waits_for_newline() {
    let mut codec = JsonRpcCodec::new();
    let mut buf = b"{\"a\":1".to_vec();
    assert_eq!(codec.decode_frame(&mut buf), None);
    assert_eq!(buf, b"{\"a\":1".to_vec());
    buf.extend_from_slice(b"}\nrest");
    assert_eq!(codec.decode_frame(&mut buf), Some(b"{\"a\":1}".to_vec()));
    assert_eq!(buf, b"rest".to_vec());
}

#[test]
fn empty_line_is_skipped() {
    let mut codec = JsonRpcCodec::new();
    let mut buf = b"\n{}\n".to_vec();
    assert_eq!(codec.decode_frame(&mut buf), None);
    assert_eq!(buf, b"{}\n".to_vec());
    assert_eq!(codec.decode_frame(&mut buf), Some(b"{}".to_vec()));
}

#[test]
fn test_encode_decode_request() {
    let mut codec = JsonRpcCodec::new();
    let mut buf = Vec::new();
    let request = br#"{"jsonrpc":"2.0","id":"test-1","method":"initialize"}"#;
    codec.encode_frame(request, &mut buf);
    let decoded = codec.decode_frame(&mut buf).unwrap();
    let value: serde_json::Value = serde_json::from_slice(&decoded).unwrap();
    assert_eq!(value["id"], "test-1");
    assert_eq!(value["method"], "initialize");
}
