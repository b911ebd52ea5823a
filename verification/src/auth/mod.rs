//! OAuth 2.0 support: client configuration and tokens, dynamic client
//! registration (RFC 7591), and the callback that ends a browser sign-in.
pub mod oauth;
pub mod registration;

pub use oauth::{OAuth2CallbackServer, OAuth2Config, OAuth2Token};
pub use registration::{
    ClientMetadata, ClientRegistrationResponse, DynamicRegistrationClient, RegistrationError,
};
