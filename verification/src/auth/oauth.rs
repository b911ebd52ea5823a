//! OAuth 2.0 client configuration and tokens, the decisions of the
//! authorization-code flow, and the local callback that receives the code.
use vstd::prelude::*;

use crate::error::Error;
use crate::text::{
    decimal, decimal_text, first_line, first_line_of, is_blank, is_blank_text, join2, join3,
    same_text, split_whitespace, starts_with, words,
};

verus! {

/// The settings of an OAuth 2.0 client.
#[derive(Debug, Clone)]
pub struct OAuth2Config {
    pub client_id: String,
    pub client_secret: Option<String>,
    pub auth_url: String,
    pub token_url: String,
    pub redirect_url: String,
    pub resource: String,
    pub scopes: Vec<String>,
}

/// A token held by a client. `expires_at` is a time on the client's
/// monotonic clock, in milliseconds, after which the token is stale.
#[derive(Debug, Clone)]
pub struct OAuth2Token {
    pub access_token: String,
    pub refresh_token: Option<String>,
    pub expires_at: Option<u64>,
}

/// Whether a token can still be used at time `now`: it has no expiry, or
/// its expiry lies after `now`.
pub open spec fn is_fresh(token: OAuth2Token, now: u64) -> bool {
    match token.expires_at {
        Some(at) => at > now,
        None => true,
    }
}

/// What a client does to present a valid token.
#[derive(Debug)]
pub enum TokenPlan {
    /// Use this access token.
    Use(String),
    /// Exchange this refresh token for a new access token.
    Refresh(String),
    /// No token can be had.
    Unavailable,
}

/// Decides how to get a valid token at time `now` from the token held, if any.
pub fn plan_token(token: Option<&OAuth2Token>, now: u64) -> (r: TokenPlan)
    ensures
        match token {
            Some(t) => if is_fresh(*t, now) {
                r matches TokenPlan::Use(a) && a@ == t.access_token@
            } else {
                match t.refresh_token {
                    Some(rt) => r matches TokenPlan::Refresh(x) && x@ == rt@,
                    None => r is Unavailable,
                }
            },
            None => r is Unavailable,
        },
{
    match token {
        Some(t) => {
            let fresh = match t.expires_at {
                Some(at) => at > now,
                None => true,
            };
            if fresh {
                TokenPlan::Use(t.access_token.clone())
            } else {
                match &t.refresh_token {
                    Some(rt) => TokenPlan::Refresh(rt.clone()),
                    None => TokenPlan::Unavailable,
                }
            }
        },
        None => TokenPlan::Unavailable,
    }
}

/// Law: a held token that has not expired (or never expires) is used as it
/// is, whether or not it carries a refresh token; an expired one is
/// refreshed with its refresh token, or is unavailable without one.
pub proof fn law_unexpired_tokens_are_used(t: OAuth2Token, now: u64, r: TokenPlan)
    requires
        if is_fresh(t, now) {
            r matches TokenPlan::Use(a) && a@ == t.access_token@
        } else {
            match t.refresh_token {
                Some(rt) => r matches TokenPlan::Refresh(x) && x@ == rt@,
                None => r is Unavailable,
            }
        },
    ensures
        (t.expires_at is None || t.expires_at.unwrap() > now) ==> (r matches TokenPlan::Use(a)
            && a@ == t.access_token@),
        (t.expires_at matches Some(at) && at <= now) ==> match t.refresh_token {
            Some(rt) => r matches TokenPlan::Refresh(x) && x@ == rt@,
            None => r is Unavailable,
        },
{
}

/// The error of a client that holds no usable token and nothing to refresh.
pub fn no_valid_token() -> (e: Error)
    ensures
        e matches Error::AuthorizationFailed(m) && m@ == "No valid token available"@,
{
    Error::AuthorizationFailed("No valid token available".to_string())
}

/// The token a grant gives at time `now`: its access token, its refresh
/// token, and an expiry `expires_in` milliseconds after `now` when the grant
/// states one.
pub fn token_from_grant(
    access_token: String,
    refresh_token: Option<String>,
    expires_in: Option<u64>,
    now: u64,
) -> (t: OAuth2Token)
    requires
        match expires_in {
            Some(d) => now + d <= u64::MAX,
            None => true,
        },
    ensures
        t.access_token == access_token,
        t.refresh_token == refresh_token,
        t.expires_at == match expires_in {
            Some(d) => Some((now + d) as u64),
            None => None::<u64>,
        },
{
    let expires_at = match expires_in {
        Some(d) => Some(now + d),
        None => None,
    };
    OAuth2Token { access_token, refresh_token, expires_at }
}

/// Checks the `state` that came back with an authorization code against the
/// CSRF token the client stored when it built the authorization URL, and
/// that the PKCE verifier of that URL is still held.
pub fn check_authorization_state(stored: Option<&str>, state: &str, has_verifier: bool) -> (r:
    Result<(), Error>)
    ensures
        match stored {
            None => r matches Err(Error::InvalidConfiguration(m)) && m@ == "Missing CSRF token"@,
            Some(s) => if s@ != state@ {
                r matches Err(Error::AuthorizationFailed(m)) && m@ == "CSRF token mismatch"@
            } else if !has_verifier {
                r matches Err(Error::InvalidConfiguration(m)) && m@ == "Missing PKCE verifier"@
            } else {
                r is Ok
            },
        },
{
    match stored {
        None => Err(Error::InvalidConfiguration("Missing CSRF token".to_string())),
        Some(s) => {
            if !same_text(s, state) {
                Err(Error::AuthorizationFailed("CSRF token mismatch".to_string()))
            } else if !has_verifier {
                Err(Error::InvalidConfiguration("Missing PKCE verifier".to_string()))
            } else {
                Ok(())
            }
        },
    }
}

/// The error of a failed code exchange, explained by `detail`.
pub fn token_exchange_failed(detail: &str) -> (e: Error)
    ensures
        e matches Error::AuthorizationFailed(m) && m@ == "Token exchange failed: "@ + detail@,
{
    Error::AuthorizationFailed(join2("Token exchange failed: ", detail))
}

/// The error of a failed refresh, explained by `detail`.
pub fn token_refresh_failed(detail: &str) -> (e: Error)
    ensures
        e matches Error::AuthorizationFailed(m) && m@ == "Token refresh failed: "@ + detail@,
{
    Error::AuthorizationFailed(join2("Token refresh failed: ", detail))
}

/// The scheme and host of `url` as `url::Url::parse` reads them (the host
/// absent when the URL has none), or the parser's error text.
pub uninterp spec fn url_scheme_and_host(url: Seq<char>) -> Result<
    (Seq<char>, Option<Seq<char>>),
    Seq<char>,
>;

/// Parses `url` with `url::Url::parse` and returns its `scheme()` and
/// `host_str()`, or the text of the parse error. The contract ties the
/// result to the URL text through `url_scheme_and_host`; it says nothing of
/// how the parser reads a URL.
#[verifier::external_body]
fn scheme_and_host(url: &str) -> (r: Result<(String, Option<String>), String>)
    ensures
        url_scheme_and_host(url@) == match r {
            Ok((scheme, host)) => Ok(
                (
                    scheme@,
                    match host {
                        Some(h) => Some(h@),
                        None => None,
                    },
                ),
            ),
            Err(e) => Err(e@),
        },
{
    match url::Url::parse(url) {
        Ok(u) => Ok((u.scheme().to_string(), u.host_str().map(|h| h.to_string()))),
        Err(e) => Err(e.to_string()),
    }
}

/// The issuer named by a parsed authorization URL: `scheme://host`, with an
/// empty host when the URL has none; an invalid-configuration error when the
/// URL could not be parsed.
pub open spec fn issuer_from(parsed: Result<(Seq<char>, Option<Seq<char>>), Seq<char>>) -> Result<
    Seq<char>,
    Seq<char>,
> {
    match parsed {
        Ok((scheme, host)) => Ok(
            scheme + "://"@ + match host {
                Some(h) => h,
                None => Seq::empty(),
            },
        ),
        Err(e) => Err("Invalid auth URL: "@ + e),
    }
}

/// The issuer of a parsed authorization URL (see `issuer_from`); an error
/// stands for the invalid configuration it reports.
pub fn issuer_from_parts(parsed: Result<(String, Option<String>), String>) -> (r: Result<
    String,
    Error,
>)
    ensures
        match parsed {
            Ok((scheme, host)) => r matches Ok(s) && s@ == scheme@ + "://"@ + match host {
                Some(h) => h@,
                None => Seq::empty(),
            },
            Err(e) => r matches Err(Error::InvalidConfiguration(m)) && m@ == "Invalid auth URL: "@
                + e@,
        },
{
    match parsed {
        Ok((scheme, host)) => {
            let host_text = match host {
                Some(h) => h,
                None => String::new(),
            };
            Ok(join3(scheme.as_str(), "://", host_text.as_str()))
        },
        Err(e) => Err(Error::InvalidConfiguration(join2("Invalid auth URL: ", e.as_str()))),
    }
}

/// The issuer of the authorization server that `auth_url` belongs to.
pub fn issuer_of(auth_url: &str) -> (r: Result<String, Error>)
    ensures
        match issuer_from(url_scheme_and_host(auth_url@)) {
            Ok(s) => r matches Ok(t) && t@ == s,
            Err(m) => r matches Err(Error::InvalidConfiguration(t)) && t@ == m,
        },
{
    issuer_from_parts(scheme_and_host(auth_url))
}

/// A parse result of `scheme_and_host` taken by its text.
pub open spec fn parsed_url_view(p: Result<(String, Option<String>), String>) -> Result<
    (Seq<char>, Option<Seq<char>>),
    Seq<char>,
> {
    match p {
        Ok((scheme, host)) => Ok(
            (
                scheme@,
                match host {
                    Some(h) => Some(h@),
                    None => None,
                },
            ),
        ),
        Err(e) => Err(e@),
    }
}

/// Whether a client's authorization, token and redirect URLs are usable,
/// given how each parsed: the first that did not parse is reported, with the
/// parser's error text.
pub open spec fn client_urls_outcome(
    auth: Result<(Seq<char>, Option<Seq<char>>), Seq<char>>,
    token: Result<(Seq<char>, Option<Seq<char>>), Seq<char>>,
    redirect: Result<(Seq<char>, Option<Seq<char>>), Seq<char>>,
) -> Result<(), Seq<char>> {
    match auth {
        Err(e) => Err("Invalid auth URL: "@ + e),
        Ok(_) => match token {
            Err(e) => Err("Invalid token URL: "@ + e),
            Ok(_) => match redirect {
                Err(e) => Err("Invalid redirect URL: "@ + e),
                Ok(_) => Ok(()),
            },
        },
    }
}

/// Checks a client's URLs given how each parsed (see `client_urls_outcome`);
/// an error is an invalid configuration.
pub fn client_urls_checked(
    auth: Result<(String, Option<String>), String>,
    token: Result<(String, Option<String>), String>,
    redirect: Result<(String, Option<String>), String>,
) -> (r: Result<(), Error>)
    ensures
        match client_urls_outcome(
            parsed_url_view(auth),
            parsed_url_view(token),
            parsed_url_view(redirect),
        ) {
            Ok(()) => r is Ok,
            Err(m) => r matches Err(Error::InvalidConfiguration(t)) && t@ == m,
        },
{
    match auth {
        Err(e) => Err(Error::InvalidConfiguration(join2("Invalid auth URL: ", e.as_str()))),
        Ok(_) => match token {
            Err(e) => Err(Error::InvalidConfiguration(join2("Invalid token URL: ", e.as_str()))),
            Ok(_) => match redirect {
                Err(e) => Err(Error::InvalidConfiguration(join2("Invalid redirect URL: ", e.as_str()))),
                Ok(_) => Ok(()),
            },
        },
    }
}

/// Checks that the authorization, token and redirect URLs of `config`
/// parse, as an OAuth 2.0 client needs them to; the first that does not is
/// reported as an invalid configuration.
pub fn check_client_urls(config: &OAuth2Config) -> (r: Result<(), Error>)
    ensures
        match client_urls_outcome(
            url_scheme_and_host(config.auth_url@),
            url_scheme_and_host(config.token_url@),
            url_scheme_and_host(config.redirect_url@),
        ) {
            Ok(()) => r is Ok,
            Err(m) => r matches Err(Error::InvalidConfiguration(t)) && t@ == m,
        },
{
    let auth = scheme_and_host(config.auth_url.as_str());
    let token = scheme_and_host(config.token_url.as_str());
    let redirect = scheme_and_host(config.redirect_url.as_str());
    client_urls_checked(auth, token, redirect)
}

/// The longest line the callback server reads, in bytes.
pub const MAX_LINE_LENGTH: usize = 1024;

/// The largest request the callback server reads, in bytes.
pub const MAX_REQUEST_SIZE: usize = 8192;

/// The local server that receives the browser's redirect at the end of an
/// authorization.
#[derive(Debug, Clone, Copy)]
pub struct OAuth2CallbackServer {
    port: u16,
}

/// The request head a callback server has read so far: its lines up to the
/// blank line, and how many bytes were read.
#[derive(Debug)]
pub struct CallbackRequest {
    text: String,
    total_read: usize,
}

impl CallbackRequest {
    /// The lines kept so far.
    pub closed spec fn spec_text(self) -> Seq<char> {
        self.text@
    }

    /// The bytes read so far.
    pub closed spec fn spec_total(self) -> nat {
        self.total_read as nat
    }

    /// Nothing read yet.
    pub fn new() -> (r: CallbackRequest)
        ensures
            r.spec_text() == Seq::<char>::empty(),
            r.spec_total() == 0,
    {
        CallbackRequest { text: String::new(), total_read: 0 }
    }

    /// The lines kept so far.
    pub fn text(&self) -> (s: &str)
        ensures
            s@ == self.spec_text(),
    {
        self.text.as_str()
    }

    /// Takes in the next line read (with its line ending; empty at the end
    /// of the input). Returns whether the head is complete: at the end of the
    /// input or at a blank line. A line over `MAX_LINE_LENGTH` bytes, or one
    /// that brings the total over `MAX_REQUEST_SIZE`, is refused.
    pub fn feed_line(&mut self, line: &str) -> (r: Result<bool, Error>)
        ensures
            line.len() == 0 ==> r == Ok::<bool, Error>(true) && *final(self) == *old(self),
            line.len() > 0 && (line.len() > MAX_LINE_LENGTH || old(self).spec_total() + line.len()
                > MAX_REQUEST_SIZE) ==> (r matches Err(Error::AuthorizationFailed(m)) && m@
                == "HTTP request too large"@),
            line.len() > 0 && line.len() <= MAX_LINE_LENGTH && old(self).spec_total() + line.len()
                <= MAX_REQUEST_SIZE ==> (final(self).spec_total() == old(self).spec_total()
                + line.len() && if is_blank_text(line@) {
                r == Ok::<bool, Error>(true) && final(self).spec_text() == old(self).spec_text()
            } else {
                r == Ok::<bool, Error>(false) && final(self).spec_text() == old(self).spec_text()
                    + line@
            }),
    {
        let n = line.len();
        if n == 0 {
            return Ok(true);
        }
        if n > MAX_LINE_LENGTH || self.total_read > MAX_REQUEST_SIZE - n {
            proof {
                assert(n > MAX_LINE_LENGTH || self.total_read + n > MAX_REQUEST_SIZE);
            }
            return Err(Error::AuthorizationFailed("HTTP request too large".to_string()));
        }
        self.total_read = self.total_read + n;
        if is_blank(line) {
            return Ok(true);
        }
        self.text.append(line);
        Ok(false)
    }
}

/// The value of the last query pair named `key`, as a map built from the
/// pairs in order keeps it.
pub open spec fn query_value(pairs: Seq<(Seq<char>, Seq<char>)>, key: Seq<char>) -> Option<
    Seq<char>,
>
    decreases pairs.len(),
{
    if pairs.len() == 0 {
        None
    } else if pairs.last().0 == key {
        Some(pairs.last().1)
    } else {
        query_value(pairs.drop_last(), key)
    }
}

/// The value of the last pair named `key`.
fn last_value(pairs: &Vec<(String, String)>, key: &str) -> (r: Option<String>)
    ensures
        match query_value(pairs@.map_values(|p: (String, String)| (p.0@, p.1@)), key@) {
            Some(v) => r matches Some(s) && s@ == v,
            None => r is None,
        },
{
    let ghost ps = pairs@.map_values(|p: (String, String)| (p.0@, p.1@));
    let mut i: usize = pairs.len();
    proof {
        assert(ps.take(pairs@.len() as int) =~= ps);
    }
    while i > 0
        invariant
            i <= pairs@.len(),
            ps == pairs@.map_values(|p: (String, String)| (p.0@, p.1@)),
            query_value(ps, key@) == query_value(ps.take(i as int), key@),
        decreases i,
    {
        let ghost t = ps.take(i as int);
        assert(t.last() == ps[i - 1]);
        assert(t.drop_last() =~= ps.take(i - 1));
        if same_text(pairs[i - 1].0.as_str(), key) {
            return Some(pairs[i - 1].1.clone());
        }
        i = i - 1;
    }
    None
}

/// The query pairs of `url`, percent-decoded and in order, as
/// `url::Url::parse` and `query_pairs` give them; or the parser's error text.
pub uninterp spec fn url_query_pairs(url: Seq<char>) -> Result<
    Seq<(Seq<char>, Seq<char>)>,
    Seq<char>,
>;

/// Parses `url` with `url::Url::parse` and lists its `query_pairs()`, or
/// returns the text of the parse error. The contract ties the result to the
/// URL text through `url_query_pairs`; it says nothing of how the parser
/// decodes a query.
#[verifier::external_body]
fn query_pairs(url: &str) -> (r: Result<Vec<(String, String)>, String>)
    ensures
        url_query_pairs(url@) == match r {
            Ok(v) => Ok(v@.map_values(|p: (String, String)| (p.0@, p.1@))),
            Err(e) => Err(e@),
        },
{
    match url::Url::parse(url) {
        Ok(u) => Ok(u.query_pairs().map(|(k, v)| (k.into_owned(), v.into_owned())).collect()),
        Err(e) => Err(e.to_string()),
    }
}

/// The code and state of a callback, given its parsed query: the last
/// `code` and the last `state`, or the error that names what is missing.
pub open spec fn callback_result(parsed: Result<Seq<(Seq<char>, Seq<char>)>, Seq<char>>) -> Result<
    (Seq<char>, Seq<char>),
    Seq<char>,
> {
    match parsed {
        Err(e) => Err("Failed to parse callback URL: "@ + e),
        Ok(pairs) => match query_value(pairs, "code"@) {
            None => Err("Missing authorization code"@),
            Some(code) => match query_value(pairs, "state"@) {
                None => Err("Missing state parameter"@),
                Some(state) => Ok((code, state)),
            },
        },
    }
}

/// Whether `r` is the answer `expected` describes: the code and state, or an
/// authorization failure with the given text.
pub open spec fn is_callback_answer(
    r: Result<(String, String), Error>,
    expected: Result<(Seq<char>, Seq<char>), Seq<char>>,
) -> bool {
    match expected {
        Ok((code, state)) => r matches Ok((c, s)) && c@ == code && s@ == state,
        Err(m) => r matches Err(Error::AuthorizationFailed(t)) && t@ == m,
    }
}

/// The code and state carried by a parsed callback query (see `callback_result`).
pub fn callback_from_query(parsed: Result<Vec<(String, String)>, String>) -> (r: Result<
    (String, String),
    Error,
>)
    ensures
        is_callback_answer(
            r,
            callback_result(
                match parsed {
                    Ok(v) => Ok(v@.map_values(|p: (String, String)| (p.0@, p.1@))),
                    Err(e) => Err(e@),
                },
            ),
        ),
{
    match parsed {
        Err(e) => Err(Error::AuthorizationFailed(join2("Failed to parse callback URL: ", e.as_str()))),
        Ok(pairs) => {
            let code = match last_value(&pairs, "code") {
                Some(c) => c,
                None => {
                    return Err(Error::AuthorizationFailed("Missing authorization code".to_string()));
                },
            };
            let state = match last_value(&pairs, "state") {
                Some(s) => s,
                None => {
                    return Err(Error::AuthorizationFailed("Missing state parameter".to_string()));
                },
            };
            Ok((code, state))
        },
    }
}

/// What the callback server answers a request head with: the code and state
/// of a `GET /callback...` request line, or the failure that explains why not.
pub open spec fn callback_answer(request: Seq<char>) -> Result<(Seq<char>, Seq<char>), Seq<char>> {
    match first_line_of(request) {
        None => Err("Empty request received"@),
        Some(line) => {
            let parts = words(line);
            if parts.len() < 3 {
                Err("Invalid HTTP request line"@)
            } else if parts[0] != "GET"@ {
                Err("Unsupported HTTP method: "@ + parts[0])
            } else if !(parts[1].len() >= "/callback"@.len() && parts[1].subrange(
                0,
                "/callback"@.len() as int,
            ) == "/callback"@) {
                Err("Invalid callback path"@)
            } else {
                callback_result(url_query_pairs("http://localhost"@ + parts[1]))
            }
        },
    }
}

impl OAuth2CallbackServer {
    /// A callback server for `port` on the loopback interface.
    pub fn new(port: u16) -> (s: OAuth2CallbackServer)
        ensures
            s.spec_port() == port,
    {
        OAuth2CallbackServer { port }
    }

    /// The port this server listens on.
    pub closed spec fn spec_port(self) -> u16 {
        self.port
    }

    /// The port this server listens on.
    pub fn port(&self) -> (p: u16)
        ensures
            p == self.spec_port(),
    {
        self.port
    }

    /// The address this server binds: the loopback address and its port.
    pub fn bind_address(&self) -> (s: String)
        ensures
            s@ == "127.0.0.1:"@ + decimal_text(self.spec_port() as nat),
    {
        let port_text = decimal(self.port as u64);
        join2("127.0.0.1:", port_text.as_str())
    }

    /// Reads the authorization code and state out of the callback's request
    /// head (see `callback_answer`).
    pub fn extract_code_and_state(request: &str) -> (r: Result<(String, String), Error>)
        ensures
            is_callback_answer(r, callback_answer(request@)),
    {
        let line = match first_line(request) {
            Some(l) => l,
            None => {
                return Err(Error::AuthorizationFailed("Empty request received".to_string()));
            },
        };
        let parts = split_whitespace(line.as_str());
        proof {
            assert(parts@.len() == words(line@).len());
        }
        if parts.len() < 3 {
            return Err(Error::AuthorizationFailed("Invalid HTTP request line".to_string()));
        }
        proof {
            assert(parts@[0]@ == words(line@)[0]);
            assert(parts@[1]@ == words(line@)[1]);
        }
        let method = parts[0].as_str();
        if !same_text(method, "GET") {
            return Err(Error::AuthorizationFailed(join2("Unsupported HTTP method: ", method)));
        }
        let path = parts[1].as_str();
        if !starts_with(path, "/callback") {
            return Err(Error::AuthorizationFailed("Invalid callback path".to_string()));
        }
        let url = join2("http://localhost", path);
        callback_from_query(query_pairs(url.as_str()))
    }
}

/// The page shown in the browser once the authorization code has arrived.
pub const SUCCESS_HTML: &'static str = "<!DOCTYPE html>
<html>
<head>
    <title>Authorization Successful</title>
    <style>
        body {
            font-family: -apple-system, BlinkMacSystemFont, 'Segoe UI', Roboto, sans-serif;
            display: flex;
            justify-content: center;
            align-items: center;
            height: 100vh;
            margin: 0;
            background-color: #f5f5f5;
        }
        .container {
            text-align: center;
            padding: 2rem;
            background: white;
            border-radius: 8px;
            box-shadow: 0 2px 4px rgba(0,0,0,0.1);
        }
        h1 { color: #22c55e; }
        p { color: #666; margin-top: 1rem; }
    </style>
</head>
<body>
    <div class=\"container\">
        <h1>\u{2713} Authorization Successful</h1>
        <p>You can now close this window and return to your terminal.</p>
    </div>
</body>
</html>";

/// The HTTP response that ends the callback: the success page, with its
/// length in bytes.
pub fn callback_response() -> (s: String)
    ensures
        s@ == "HTTP/1.1 200 OK\r\nContent-Type: text/html\r\nContent-Length: "@ + decimal_text(
            SUCCESS_HTML.len() as nat,
        ) + "\r\nConnection: close\r\n\r\n"@ + SUCCESS_HTML@,
{
    let n = SUCCESS_HTML.len();
    let length = decimal(n as u64);
    let mut s = "HTTP/1.1 200 OK\r\nContent-Type: text/html\r\nContent-Length: ".to_string();
    s.append(length.as_str());
    s.append("\r\nConnection: close\r\n\r\n");
    s.append(SUCCESS_HTML);
    s
}

} // verus!
