use tenx_mcp::auth::oauth::check_client_urls;
use tenx_mcp::auth::oauth::{
    check_authorization_state, issuer_from_parts, issuer_of, plan_token, token_from_grant,
    CallbackRequest, TokenPlan, MAX_REQUEST_SIZE, SUCCESS_HTML,
};
use tenx_mcp::auth::registration::{
    bearer_header, endpoint_from_discovery, metadata_url, registration_endpoint_in,
    registration_failure, registration_metadata,
};
use tenx_mcp::auth::{
    ClientMetadata, ClientRegistrationResponse, DynamicRegistrationClient, OAuth2CallbackServer,
    OAuth2Config, OAuth2Token, RegistrationError,
};
use tenx_mcp::error::Error;
use tenx_mcp::json::JsonValue;
use tenx_mcp::map::StrMap;

#[test]
fn test_client_metadata_creation() {
    let metadata = ClientMetadata::new("Test Client", "http://localhost:8080/callback")
        .with_resource("https://example.com/api")
        .with_scopes(vec!["read".to_string(), "write".to_string()])
        .with_contacts(vec!["admin@example.com".to_string()]);

    assert_eq!(metadata.client_name, Some("Test Client".to_string()));
    assert_eq!(
        metadata.redirect_uris,
        Some(vec!["http://localhost:8080/callback".to_string()])
    );
    assert_eq!(metadata.resource, Some("https://example.com/api".to_string()));
    assert_eq!(metadata.scope, Some("read write".to_string()));
    assert_eq!(metadata.grant_types, Some(vec!["authorization_code".to_string()]));
}

#[test]
fn test_imports() {
    // Test that we can import and use the types
    let metadata = ClientMetadata::new("Test", "http://localhost:8080/callback");
    assert_eq!(metadata.client_name, Some("Test".to_string()));

    let _client = DynamicRegistrationClient::new();

    // Test OAuth2Config::from_registration
    let registration = ClientRegistrationResponse {
        client_id: "test_id".to_string(),
        client_secret: Some("test_secret".to_string()),
        client_id_issued_at: None,
        client_secret_expires_at: None,
        metadata: ClientMetadata::new("Test", "http://localhost:8080/callback"),
    };

    let config = OAuth2Config::from_registration(
        registration,
        "https://auth.example.com".to_string(),
        "https://token.example.com".to_string(),
        "https://resource.example.com".to_string(),
    );

    assert_eq!(config.client_id, "test_id");
    assert_eq!(config.client_secret, Some("test_secret".to_string()));
}

#[test]
fn registration_config_takes_first_redirect_and_splits_scopes() {
    let metadata = ClientMetadata::new("Client", "http://localhost:9000/cb")
        .with_scopes(vec!["read".to_string(), "write".to_string()]);
    let registration = ClientRegistrationResponse {
        client_id: "id".to_string(),
        client_secret: None,
        client_id_issued_at: Some(1),
        client_secret_expires_at: Some(0),
        metadata,
    };
    let config = OAuth2Config::from_registration(
        registration,
        "https://a".to_string(),
        "https://t".to_string(),
        "https://r".to_string(),
    );
    assert_eq!(config.redirect_url, "http://localhost:9000/cb");
    assert_eq!(config.scopes, vec!["read".to_string(), "write".to_string()]);
    assert_eq!(config.auth_url, "https://a");
    assert_eq!(config.token_url, "https://t");
    assert_eq!(config.resource, "https://r");
}

#[test]
fn registration_without_redirects_uses_default_callback() {
    let mut metadata = ClientMetadata::new("Client", "http://x");
    metadata.redirect_uris = None;
    metadata.scope = Some("  a \t b  ".to_string());
    let registration = ClientRegistrationResponse {
        client_id: "id".to_string(),
        client_secret: None,
        client_id_issued_at: None,
        client_secret_expires_at: None,
        metadata,
    };
    let config = OAuth2Config::from_registration(
        registration,
        String::new(),
        String::new(),
        String::new(),
    );
    assert_eq!(config.redirect_url, "http://localhost:8080/callback");
    assert_eq!(config.scopes, vec!["a".to_string(), "b".to_string()]);
}

#[test]
fn metadata_defaults_and_builders() {
    let m = ClientMetadata::new("n", "r")
        .with_client_uri("https://home")
        .with_software_info("sw", "1.2")
        .with_token_endpoint_auth_method("none");
    assert_eq!(m.response_types, Some(vec!["code".to_string()]));
    assert_eq!(m.token_endpoint_auth_method, Some("none".to_string()));
    assert_eq!(m.client_uri, Some("https://home".to_string()));
    assert_eq!(m.software_id, Some("sw".to_string()));
    assert_eq!(m.software_version, Some("1.2".to_string()));
    assert!(m.scope.is_none());
    assert!(m.contacts.is_none());
    assert!(m.additional.is_empty());
}

#[test]
fn self_registration_metadata() {
    let m = registration_metadata("My Client", "http://cb", "https://res", vec!["read".to_string()], "0.9.0");
    assert_eq!(m.client_name, Some("My Client".to_string()));
    assert_eq!(m.resource, Some("https://res".to_string()));
    assert_eq!(m.scope, Some("read".to_string()));
    assert_eq!(m.software_id, Some("tenx-mcp".to_string()));
    assert_eq!(m.software_version, Some("0.9.0".to_string()));
}

#[test]
fn registration_failure_messages() {
    let e = registration_failure(
        Some(RegistrationError {
            error: "invalid_client_metadata".to_string(),
            error_description: Some("bad uri".to_string()),
        }),
        "400 Bad Request",
    );
    assert!(
        matches!(e, Error::AuthorizationFailed(ref m) if m == "Registration failed: invalid_client_metadata - bad uri")
    );
    let e = registration_failure(
        Some(RegistrationError { error: "x".to_string(), error_description: None }),
        "400 Bad Request",
    );
    assert!(matches!(e, Error::AuthorizationFailed(ref m) if m == "Registration failed: x - "));
    let e = registration_failure(None, "500 Internal Server Error");
    assert!(
        matches!(e, Error::AuthorizationFailed(ref m) if m == "Registration failed with status: 500 Internal Server Error")
    );
}

#[test]
fn metadata_url_joins_issuer() {
    assert_eq!(
        metadata_url("https://auth.example.com"),
        "https://auth.example.com/.well-known/oauth-authorization-server"
    );
    assert_eq!(
        metadata_url("https://auth.example.com/"),
        "https://auth.example.com/.well-known/oauth-authorization-server"
    );
}

#[test]
fn registration_endpoint_read_from_metadata() {
    let mut m = StrMap::new();
    m.insert(
        "registration_endpoint".to_string(),
        JsonValue::String("https://auth/register".to_string()),
    );
    assert_eq!(
        registration_endpoint_in(&JsonValue::Object(m)),
        Some("https://auth/register".to_string())
    );
    let mut m = StrMap::new();
    m.insert("registration_endpoint".to_string(), JsonValue::Bool(true));
    assert_eq!(registration_endpoint_in(&JsonValue::Object(m)), None);
    assert_eq!(registration_endpoint_in(&JsonValue::Null), None);
}

#[test]
fn discovery_outcomes() {
    assert!(matches!(endpoint_from_discovery(Ok(Some("e".to_string()))), Ok(ref s) if s == "e"));
    assert!(matches!(
        endpoint_from_discovery(Ok(None)),
        Err(Error::InvalidConfiguration(ref m)) if m == "No registration endpoint found in OAuth metadata"
    ));
    assert!(matches!(
        endpoint_from_discovery(Err(Error::ConnectionClosed)),
        Err(Error::ConnectionClosed)
    ));
}

#[test]
fn bearer_header_value() {
    assert_eq!(bearer_header("abc"), "Bearer abc");
}

#[test]
fn issuer_from_auth_url() {
    assert!(matches!(issuer_of("https://auth.example.com/authorize?x=1"), Ok(ref s) if s == "https://auth.example.com"));
    assert!(matches!(
        issuer_of("not a url"),
        Err(Error::InvalidConfiguration(ref m)) if m.starts_with("Invalid auth URL: ")
    ));
    assert!(matches!(
        issuer_from_parts(Ok(("file".to_string(), None))),
        Ok(ref s) if s == "file://"
    ));
}

fn token(expires_at: Option<u64>, refresh: Option<&str>) -> OAuth2Token {
    OAuth2Token {
        access_token: "access".to_string(),
        refresh_token: refresh.map(|s| s.to_string()),
        expires_at,
    }
}

#[test]
fn token_plans() {
    assert!(matches!(plan_token(Some(&token(None, None)), 5), TokenPlan::Use(ref a) if a == "access"));
    assert!(matches!(plan_token(Some(&token(Some(10), None)), 5), TokenPlan::Use(_)));
    assert!(matches!(
        plan_token(Some(&token(Some(5), Some("refresh"))), 5),
        TokenPlan::Refresh(ref r) if r == "refresh"
    ));
    assert!(matches!(plan_token(Some(&token(Some(1), None)), 5), TokenPlan::Unavailable));
    assert!(matches!(plan_token(None, 5), TokenPlan::Unavailable));
}

#[test]
fn token_from_grant_sets_expiry() {
    let t = token_from_grant("a".to_string(), Some("r".to_string()), Some(3_600_000), 1_000);
    assert_eq!(t.expires_at, Some(3_601_000));
    let t = token_from_grant("a".to_string(), None, None, 1_000);
    assert_eq!(t.expires_at, None);
    assert_eq!(t.access_token, "a");
}

#[test]
fn authorization_state_checks() {
    assert!(matches!(
        check_authorization_state(None, "s", true),
        Err(Error::InvalidConfiguration(ref m)) if m == "Missing CSRF token"
    ));
    assert!(matches!(
        check_authorization_state(Some("a"), "b", true),
        Err(Error::AuthorizationFailed(ref m)) if m == "CSRF token mismatch"
    ));
    assert!(matches!(
        check_authorization_state(Some("a"), "a", false),
        Err(Error::InvalidConfiguration(ref m)) if m == "Missing PKCE verifier"
    ));
    assert!(check_authorization_state(Some("a"), "a", true).is_ok());
}

fn callback(request: &str) -> Result<(String, String), Error> {
    OAuth2CallbackServer::extract_code_and_state(request)
}

fn failure(request: &str) -> String {
    match callback(request) {
        Err(Error::AuthorizationFailed(m)) => m,
        other => panic!("unexpected {other:?}"),
    }
}

#[test]
fn callback_code_and_state() {
    let r = callback("GET /callback?code=test_code&state=test_state HTTP/1.1\r\nHost: localhost\r\n");
    assert!(matches!(r, Ok((ref c, ref s)) if c == "test_code" && s == "test_state"));
}

#[test]
fn callback_decodes_and_keeps_last_value() {
    let r = callback("GET /callback?code=a%20b&code=second&state=x+y HTTP/1.1");
    assert!(matches!(r, Ok((ref c, ref s)) if c == "second" && s == "x y"));
}

#[test]
fn callback_failures() {
    assert_eq!(failure(""), "Empty request received");
    assert_eq!(failure("GET /callback"), "Invalid HTTP request line");
    assert_eq!(failure("POST /bad HTTP/1.1\r\nHost: localhost\r\n"), "Unsupported HTTP method: POST");
    assert_eq!(failure("GET /other?code=1&state=2 HTTP/1.1"), "Invalid callback path");
    assert_eq!(failure("GET /callback?state=2 HTTP/1.1"), "Missing authorization code");
    assert_eq!(failure("GET /callback?code=1 HTTP/1.1"), "Missing state parameter");
}

#[test]
fn callback_server_address() {
    let server = OAuth2CallbackServer::new(8765);
    assert_eq!(server.port(), 8765);
    assert_eq!(server.bind_address(), "127.0.0.1:8765");
}

#[test]
fn callback_request_reading() {
    let mut request = CallbackRequest::new();
    assert!(matches!(request.feed_line("GET /callback?code=1&state=2 HTTP/1.1\r\n"), Ok(false)));
    assert!(matches!(request.feed_line("Host: localhost\r\n"), Ok(false)));
    assert!(matches!(request.feed_line("\r\n"), Ok(true)));
    assert_eq!(request.text(), "GET /callback?code=1&state=2 HTTP/1.1\r\nHost: localhost\r\n");
    let mut request = CallbackRequest::new();
    assert!(matches!(request.feed_line(""), Ok(true)));
    assert_eq!(request.text(), "");
}

#[test]
fn callback_request_too_large() {
    let mut request = CallbackRequest::new();
    let long_line = format!("GET /callback?code={}&state=test HTTP/1.1\r\n", "a".repeat(9000));
    assert!(matches!(
        request.feed_line(&long_line),
        Err(Error::AuthorizationFailed(ref m)) if m == "HTTP request too large"
    ));
    let mut request = CallbackRequest::new();
    let line = format!("{}\n", "h".repeat(1000));
    for _ in 0..(MAX_REQUEST_SIZE / 1001) {
        assert!(matches!(request.feed_line(&line), Ok(false)));
    }
    assert!(matches!(
        request.feed_line(&line),
        Err(Error::AuthorizationFailed(ref m)) if m == "HTTP request too large"
    ));
}

#[test]
fn callback_response_carries_page_length() {
    let response = tenx_mcp::auth::oauth::callback_response();
    let expected = format!(
        "HTTP/1.1 200 OK\r\nContent-Type: text/html\r\nContent-Length: {}\r\nConnection: close\r\n\r\n{}",
        SUCCESS_HTML.len(),
        SUCCESS_HTML
    );
    assert_eq!(response, expected);
    assert!(SUCCESS_HTML.contains("Authorization Successful"));
}

fn config_with_urls(auth: &str, token: &str, redirect: &str) -> tenx_mcp::auth::OAuth2Config {
    tenx_mcp::auth::OAuth2Config {
        client_id: "id".to_string(),
        client_secret: None,
        auth_url: auth.to_string(),
        token_url: token.to_string(),
        redirect_url: redirect.to_string(),
        resource: "https://example.com/api".to_string(),
        scopes: vec![],
    }
}

#[test]
fn client_urls_are_checked_in_order() {
    let ok = config_with_urls("https://a.example/auth", "https://a.example/token", "http://localhost:8080/cb");
    assert!(check_client_urls(&ok).is_ok());
    let bad = config_with_urls("not a url", "also bad", "http://localhost:8080/cb");
    assert!(matches!(
        check_client_urls(&bad),
        Err(Error::InvalidConfiguration(ref m)) if m == "Invalid auth URL: relative URL without a base"
    ));
    let bad = config_with_urls("https://a.example/auth", "also bad", "http://localhost:8080/cb");
    assert!(matches!(
        check_client_urls(&bad),
        Err(Error::InvalidConfiguration(ref m)) if m == "Invalid token URL: relative URL without a base"
    ));
    let bad = config_with_urls("https://a.example/auth", "https://a.example/token", "nope");
    assert!(matches!(
        check_client_urls(&bad),
        Err(Error::InvalidConfiguration(ref m)) if m.starts_with("Invalid redirect URL: ")
    ));
}
