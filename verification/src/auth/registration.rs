//! Dynamic client registration (RFC 7591): the metadata a client registers
//! with, the server's answer, and what a client configuration is built from it.
use vstd::prelude::*;

use crate::auth::oauth::OAuth2Config;
use crate::error::Error;
use crate::json::JsonValue;
use crate::map::StrMap;
use crate::text::{
    ends_with, is_some_text, is_word, join2, join4, join_with, joined, law_split_undoes_join,
    split_whitespace, texts, words,
};

verus! {

/// Client metadata for dynamic registration as per RFC 7591.
#[derive(Debug)]
pub struct ClientMetadata {
    /// Redirection URIs for use in redirect-based flows.
    pub redirect_uris: Option<Vec<String>>,
    /// Human-readable name of the client.
    pub client_name: Option<String>,
    /// URL of the home page of the client.
    pub client_uri: Option<String>,
    /// URL that references a logo for the client.
    pub logo_uri: Option<String>,
    /// OAuth 2.0 scope values that the client can use, separated by spaces.
    pub scope: Option<String>,
    /// OAuth 2.0 grant types the client can use.
    pub grant_types: Option<Vec<String>>,
    /// OAuth 2.0 response types the client can use.
    pub response_types: Option<Vec<String>>,
    /// Authentication method for the token endpoint.
    pub token_endpoint_auth_method: Option<String>,
    /// Contacts for the client (usually email addresses).
    pub contacts: Option<Vec<String>>,
    /// Software ID (UUID) for the client software.
    pub software_id: Option<String>,
    /// Version of the client software.
    pub software_version: Option<String>,
    /// URL for the client's terms of service.
    pub tos_uri: Option<String>,
    /// URL for the client's privacy policy.
    pub policy_uri: Option<String>,
    /// MCP-specific: resource parameter for audience binding.
    pub resource: Option<String>,
    /// Additional metadata fields.
    pub additional: StrMap<JsonValue>,
}

/// Whether an optional list of strings is present and holds exactly `expected`.
pub open spec fn is_some_texts(o: Option<Vec<String>>, expected: Seq<Seq<char>>) -> bool {
    match o {
        Some(v) => texts(v@) == expected,
        None => false,
    }
}

/// A list holding one copy of `s`.
fn single(s: &str) -> (v: Vec<String>)
    ensures
        texts(v@) == seq![s@],
{
    let mut v: Vec<String> = Vec::new();
    v.push(s.to_string());
    proof {
        assert(texts(v@) =~= seq![s@]);
    }
    v
}

impl ClientMetadata {
    /// Metadata with the fields MCP needs: the client's name and one
    /// redirect URI, the authorization-code grant, the `code` response type
    /// and `client_secret_basic` authentication at the token endpoint.
    pub fn new(client_name: &str, redirect_uri: &str) -> (m: ClientMetadata)
        ensures
            is_some_texts(m.redirect_uris, seq![redirect_uri@]),
            is_some_text(m.client_name, client_name@),
            m.client_uri is None,
            m.logo_uri is None,
            m.scope is None,
            is_some_texts(m.grant_types, seq!["authorization_code"@]),
            is_some_texts(m.response_types, seq!["code"@]),
            is_some_text(m.token_endpoint_auth_method, "client_secret_basic"@),
            m.contacts is None,
            m.software_id is None,
            m.software_version is None,
            m.tos_uri is None,
            m.policy_uri is None,
            m.resource is None,
            m.additional.wf(),
            m.additional.entries().len() == 0,
    {
        ClientMetadata {
            redirect_uris: Some(single(redirect_uri)),
            client_name: Some(client_name.to_string()),
            client_uri: None,
            logo_uri: None,
            scope: None,
            grant_types: Some(single("authorization_code")),
            response_types: Some(single("code")),
            token_endpoint_auth_method: Some("client_secret_basic".to_string()),
            contacts: None,
            software_id: None,
            software_version: None,
            tos_uri: None,
            policy_uri: None,
            resource: None,
            additional: StrMap::new(),
        }
    }

    /// Sets the resource parameter for MCP.
    pub fn with_resource(self, resource: &str) -> (m: ClientMetadata)
        ensures
            is_some_text(m.resource, resource@),
            m == (ClientMetadata { resource: m.resource, ..self }),
    {
        ClientMetadata { resource: Some(resource.to_string()), ..self }
    }

    /// Sets the scopes, joined with single spaces.
    pub fn with_scopes(self, scopes: Vec<String>) -> (m: ClientMetadata)
        ensures
            is_some_text(m.scope, joined(texts(scopes@), seq![' '])),
            m == (ClientMetadata { scope: m.scope, ..self }),
    {
        let scope = join_with(&scopes, " ");
        proof {
            reveal_strlit(" ");
            assert(" "@ =~= seq![' ']);
        }
        ClientMetadata { scope: Some(scope), ..self }
    }

    /// Sets the client URI.
    pub fn with_client_uri(self, uri: &str) -> (m: ClientMetadata)
        ensures
            is_some_text(m.client_uri, uri@),
            m == (ClientMetadata { client_uri: m.client_uri, ..self }),
    {
        ClientMetadata { client_uri: Some(uri.to_string()), ..self }
    }

    /// Sets the contacts.
    pub fn with_contacts(self, contacts: Vec<String>) -> (m: ClientMetadata)
        ensures
            m == (ClientMetadata { contacts: Some(contacts), ..self }),
    {
        ClientMetadata { contacts: Some(contacts), ..self }
    }

    /// Sets the software id and version.
    pub fn with_software_info(self, software_id: &str, software_version: &str) -> (m:
        ClientMetadata)
        ensures
            is_some_text(m.software_id, software_id@),
            is_some_text(m.software_version, software_version@),
            m == (ClientMetadata {
                software_id: m.software_id,
                software_version: m.software_version,
                ..self
            }),
    {
        ClientMetadata {
            software_id: Some(software_id.to_string()),
            software_version: Some(software_version.to_string()),
            ..self
        }
    }

    /// Sets the authentication method at the token endpoint.
    pub fn with_token_endpoint_auth_method(self, method: &str) -> (m: ClientMetadata)
        ensures
            is_some_text(m.token_endpoint_auth_method, method@),
            m == (ClientMetadata { token_endpoint_auth_method: m.token_endpoint_auth_method, ..self }),
    {
        ClientMetadata { token_endpoint_auth_method: Some(method.to_string()), ..self }
    }
}

/// The response of a registration endpoint.
#[derive(Debug)]
pub struct ClientRegistrationResponse {
    /// The client identifier.
    pub client_id: String,
    /// The client secret, if one was issued.
    pub client_secret: Option<String>,
    /// Time at which the client identifier was issued (seconds since the epoch).
    pub client_id_issued_at: Option<u64>,
    /// Time at which the client secret expires (0: never).
    pub client_secret_expires_at: Option<u64>,
    /// All registered metadata about the client.
    pub metadata: ClientMetadata,
}

/// An error answer of a registration endpoint.
#[derive(Debug, Clone)]
pub struct RegistrationError {
    /// Error code.
    pub error: String,
    /// Human-readable error description.
    pub error_description: Option<String>,
}

/// The HTTP client type of the `reqwest` crate, carried opaquely.
#[verifier::external_type_specification]
#[verifier::external_body]
pub struct ExHttpClient(reqwest::Client);

/// A new HTTP client with reqwest's default settings (`reqwest::Client::new`).
/// Nothing is stated of it: it is only handed back to reqwest.
#[verifier::external_body]
fn new_http_client() -> reqwest::Client {
    reqwest::Client::new()
}

/// A client of registration endpoints.
pub struct DynamicRegistrationClient {
    http_client: reqwest::Client,
}

impl DynamicRegistrationClient {
    /// A registration client with a fresh HTTP client.
    pub fn new() -> Self {
        DynamicRegistrationClient { http_client: new_http_client() }
    }

    /// The HTTP client this registration client holds.
    pub closed spec fn held_client(&self) -> reqwest::Client {
        self.http_client
    }

    /// The HTTP client requests are sent with: the one this client holds.
    pub fn http_client(&self) -> (c: &reqwest::Client)
        ensures
            *c == self.held_client(),
    {
        &self.http_client
    }
}

impl Default for DynamicRegistrationClient {
    fn default() -> Self {
        DynamicRegistrationClient::new()
    }
}

/// The text of an optional string, empty when absent.
pub open spec fn text_or_empty(o: Option<String>) -> Seq<char> {
    match o {
        Some(s) => s@,
        None => Seq::empty(),
    }
}

/// The error a failed registration ends in: the endpoint's own error when
/// its answer could be read as one, the HTTP status (written `status_text`)
/// otherwise.
pub fn registration_failure(answer: Option<RegistrationError>, status_text: &str) -> (e: Error)
    ensures
        match answer {
            Some(a) => e matches Error::AuthorizationFailed(m) && m@ == "Registration failed: "@
                + a.error@ + " - "@ + text_or_empty(a.error_description),
            None => e matches Error::AuthorizationFailed(m) && m@
                == "Registration failed with status: "@ + status_text@,
        },
{
    match answer {
        Some(a) => {
            let description = match a.error_description {
                Some(d) => d,
                None => String::new(),
            };
            Error::AuthorizationFailed(
                join4("Registration failed: ", a.error.as_str(), " - ", description.as_str()),
            )
        },
        None => Error::AuthorizationFailed(join2("Registration failed with status: ", status_text)),
    }
}

/// The OAuth authorization-server metadata URL (RFC 8414) of an issuer.
pub fn metadata_url(issuer: &str) -> (r: String)
    ensures
        issuer@.len() > 0 && issuer@.last() == '/' ==> r@ == issuer@
            + ".well-known/oauth-authorization-server"@,
        !(issuer@.len() > 0 && issuer@.last() == '/') ==> r@ == issuer@
            + "/.well-known/oauth-authorization-server"@,
{
    proof {
        reveal_strlit("/");
    }
    if ends_with(issuer, "/") {
        proof {
            let tail = issuer@.subrange(issuer@.len() - 1, issuer@.len() as int);
            assert(tail == "/"@);
            assert(tail[0] == issuer@.last());
            assert("/"@[0] == '/');
        }
        join2(issuer, ".well-known/oauth-authorization-server")
    } else {
        proof {
            if issuer@.len() > 0 && issuer@.last() == '/' {
                assert(issuer@.subrange(issuer@.len() - 1, issuer@.len() as int) =~= "/"@);
            }
        }
        join2(issuer, "/.well-known/oauth-authorization-server")
    }
}

/// The registration endpoint named in OAuth metadata, if the metadata is an
/// object whose `registration_endpoint` member is a string.
pub fn registration_endpoint_in(metadata: &JsonValue) -> (r: Option<String>)
    requires
        metadata matches JsonValue::Object(m) ==> m.wf(),
    ensures
        match *metadata {
            JsonValue::Object(m) => match m.spec_get("registration_endpoint"@) {
                Some(JsonValue::String(s)) => r matches Some(t) && t@ == s@,
                _ => r is None,
            },
            _ => r is None,
        },
{
    match metadata {
        JsonValue::Object(m) => match m.get("registration_endpoint") {
            Some(v) => v.to_string_value(),
            None => None,
        },
        _ => None,
    }
}

/// The value of an `Authorization` header that presents a bearer token.
pub fn bearer_header(token: &str) -> (r: String)
    ensures
        r@ == "Bearer "@ + token@,
{
    join2("Bearer ", token)
}

/// The redirect URL a client uses when its registration names none.
pub const DEFAULT_REDIRECT_URL: &'static str = "http://localhost:8080/callback";

/// The redirect URL taken from registered redirect URIs: the first one, or
/// the default when there is none.
pub open spec fn first_redirect(uris: Option<Vec<String>>) -> Seq<char> {
    match uris {
        Some(v) => if v@.len() > 0 {
            v@[0]@
        } else {
            DEFAULT_REDIRECT_URL@
        },
        None => DEFAULT_REDIRECT_URL@,
    }
}

/// The scopes taken from a registered scope string: its whitespace-separated
/// words, or none.
pub open spec fn registered_scopes(scope: Option<String>) -> Seq<Seq<char>> {
    match scope {
        Some(s) => words(s@),
        None => Seq::empty(),
    }
}

/// Law: the scopes a client registers with `with_scopes` come back, in
/// order, in the configuration `from_registration` builds from the
/// registered scope string, provided each scope is a non-empty word without
/// whitespace.
pub proof fn law_registered_scopes_round_trip(scopes: Seq<Seq<char>>, registered: Option<String>)
    requires
        forall|i: int| 0 <= i < scopes.len() ==> is_word(#[trigger] scopes[i]),
        registered matches Some(s) && s@ == joined(scopes, seq![' ']),
    ensures
        registered_scopes(registered) == scopes,
{
    law_split_undoes_join(scopes);
}

impl OAuth2Config {
    /// The client configuration given by a registration response and the
    /// server's endpoints.
    pub fn from_registration(
        registration: ClientRegistrationResponse,
        auth_url: String,
        token_url: String,
        resource: String,
    ) -> (c: OAuth2Config)
        ensures
            c.client_id == registration.client_id,
            c.client_secret == registration.client_secret,
            c.auth_url == auth_url,
            c.token_url == token_url,
            c.redirect_url@ == first_redirect(registration.metadata.redirect_uris),
            c.resource == resource,
            texts(c.scopes@) == registered_scopes(registration.metadata.scope),
    {
        let redirect_url = match registration.metadata.redirect_uris {
            Some(uris) => {
                if uris.len() > 0 {
                    uris[0].clone()
                } else {
                    DEFAULT_REDIRECT_URL.to_string()
                }
            },
            None => DEFAULT_REDIRECT_URL.to_string(),
        };
        let scopes = match registration.metadata.scope {
            Some(s) => split_whitespace(s.as_str()),
            None => Vec::new(),
        };
        proof {
            if registration.metadata.scope is None {
                assert(texts(scopes@) =~= Seq::<Seq<char>>::empty());
            }
        }
        OAuth2Config {
            client_id: registration.client_id,
            client_secret: registration.client_secret,
            auth_url,
            token_url,
            redirect_url,
            resource,
            scopes,
        }
    }
}

/// The registration endpoint to use, given what discovery found: the one
/// named in the server's metadata; an error when the metadata names none, or
/// when discovery failed.
pub fn endpoint_from_discovery(discovered: Result<Option<String>, Error>) -> (r: Result<
    String,
    Error,
>)
    ensures
        match discovered {
            Ok(Some(e)) => r == Ok::<String, Error>(e),
            Ok(None) => r matches Err(Error::InvalidConfiguration(m)) && m@
                == "No registration endpoint found in OAuth metadata"@,
            Err(e) => r == Err::<String, Error>(e),
        },
{
    match discovered {
        Ok(Some(e)) => Ok(e),
        Ok(None) => Err(
            Error::InvalidConfiguration(
                "No registration endpoint found in OAuth metadata".to_string(),
            ),
        ),
        Err(e) => Err(e),
    }
}

/// The metadata a client registers with when it registers itself: its
/// name and redirect URL, the resource it asks access to, its scopes, and
/// this library as its software (at version `software_version`).
pub fn registration_metadata(
    client_name: &str,
    redirect_url: &str,
    resource: &str,
    scopes: Vec<String>,
    software_version: &str,
) -> (m: ClientMetadata)
    ensures
        is_some_texts(m.redirect_uris, seq![redirect_url@]),
        is_some_text(m.client_name, client_name@),
        is_some_text(m.resource, resource@),
        is_some_text(m.scope, joined(texts(scopes@), seq![' '])),
        is_some_text(m.software_id, "tenx-mcp"@),
        is_some_text(m.software_version, software_version@),
        is_some_texts(m.grant_types, seq!["authorization_code"@]),
        is_some_texts(m.response_types, seq!["code"@]),
        is_some_text(m.token_endpoint_auth_method, "client_secret_basic"@),
{
    ClientMetadata::new(client_name, redirect_url).with_resource(resource).with_scopes(
        scopes,
    ).with_software_info("tenx-mcp", software_version)
}

} // verus!
