use base64::Engine;
use tenx_mcp::schema::{Resource, ResourceContents};

#[test]
fn text_file_contents() {
    match ResourceContents::from_file_data("test_file.txt", "file://test.txt", b"Hello, world!".to_vec()) {
        ResourceContents::Text(t) => {
            assert_eq!(t.text, "Hello, world!");
            assert_eq!(t.mime_type, Some("text/plain".to_string()));
            assert_eq!(t.uri, "file://test.txt");
        }
        other => panic!("Expected text content, got {other:?}"),
    }
}

#[test]
fn json_and_xml_files_are_text() {
    match ResourceContents::from_file_data("test_data.json", "file://data.json", br#"{"name": "test", "value": 42}"#.to_vec()) {
        ResourceContents::Text(t) => {
            assert_eq!(t.mime_type, Some("application/json".to_string()));
            assert_eq!(t.text, r#"{"name": "test", "value": 42}"#);
        }
        other => panic!("Expected text content, got {other:?}"),
    }
    match ResourceContents::from_file_data("test.xml", "file://test.xml", br#"<?xml version="1.0"?><root></root>"#.to_vec()) {
        ResourceContents::Text(t) => assert_eq!(t.mime_type, Some("text/xml".to_string())),
        other => panic!("Expected text content for XML file, got {other:?}"),
    }
}

#[test]
fn binary_file_is_base64_blob() {
    let png = vec![0x89, 0x50, 0x4E, 0x47, 0x0D, 0x0A, 0x1A, 0x0A];
    match ResourceContents::from_file_data("test_image.png", "file://image.png", png) {
        ResourceContents::Blob(b) => {
            assert_eq!(b.mime_type, Some("image/png".to_string()));
            assert_eq!(b.blob, "iVBORw0KGgo=");
        }
        other => panic!("Expected blob content, got {other:?}"),
    }
}

#[test]
fn invalid_utf8_text_file_is_blob() {
    match ResourceContents::from_file_data("notes.txt", "file://notes.txt", vec![0xff, 0xfe, 0x41]) {
        ResourceContents::Blob(b) => assert_eq!(b.blob, "//5B"),
        other => panic!("Expected blob content, got {other:?}"),
    }
}

#[test]
fn resource_for_file() {
    let r = Resource::for_file("resource_test.rs", "test-resource", "file://test.rs", 12);
    assert_eq!(r.name, "test-resource");
    assert_eq!(r.uri, "file://test.rs");
    assert_eq!(r.mime_type, Some("text/x-rust".to_string()));
    assert_eq!(r.size, Some(12));
}

#[test]
fn markdown_file_is_text() {
    match ResourceContents::from_file_data("file2.md", "file://file2.md", b"# Markdown Content".to_vec()) {
        ResourceContents::Text(t) => assert_eq!(t.mime_type, Some("text/markdown".to_string())),
        other => panic!("Expected text content for file2, got {other:?}"),
    }
}

#[test]
fn json_text_contents() {
    match ResourceContents::json_text("file://data.json", "{\n  \"a\": 1\n}") {
        ResourceContents::Text(t) => {
            assert_eq!(t.mime_type, Some("application/json".to_string()));
            assert_eq!(t.text, "{\n  \"a\": 1\n}");
            assert_eq!(t.uri, "file://data.json");
        }
        other => panic!("Expected text content, got {other:?}"),
    }
}

#[test]
fn typed_file_data_follows_the_mime_type() {
    let r = ResourceContents::from_typed_file_data(
        "application".to_string(),
        "json".to_string(),
        "application/json".to_string(),
        "file:///a.json",
        b"{}".to_vec(),
    );
    assert!(matches!(r, ResourceContents::Text(ref t) if t.text == "{}" && t.mime_type.as_deref() == Some("application/json")));
    let r = ResourceContents::from_typed_file_data(
        "application".to_string(),
        "pdf".to_string(),
        "application/pdf".to_string(),
        "file:///a.pdf",
        b"abc".to_vec(),
    );
    assert!(matches!(r, ResourceContents::Blob(ref b) if b.blob == "YWJj" && b.uri == "file:///a.pdf"));
}

#[test]
fn file_contents_decode_back_to_the_bytes() {
    let bytes: Vec<u8> = vec![0, 1, 2, 250, 251, 252, 253];
    let r = ResourceContents::from_typed_file_data(
        "application".to_string(),
        "octet-stream".to_string(),
        "application/octet-stream".to_string(),
        "file:///b.bin",
        bytes.clone(),
    );
    match r {
        ResourceContents::Blob(ref b) => {
            assert_eq!(b.blob, "AAEC+vv8/Q==");
            use_standard_decode(&b.blob, &bytes);
        }
        _ => panic!("expected a blob"),
    }
    let text = "héllo".as_bytes().to_vec();
    let r = ResourceContents::from_typed_file_data(
        "text".to_string(),
        "plain".to_string(),
        "text/plain".to_string(),
        "file:///t.txt",
        text.clone(),
    );
    assert!(matches!(r, ResourceContents::Text(ref t) if t.text.as_bytes() == text.as_slice()));
}

fn use_standard_decode(blob: &str, bytes: &[u8]) {
    assert_eq!(base64::engine::general_purpose::STANDARD.decode(blob).unwrap(), bytes);
}
