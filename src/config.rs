//! The configuration that startup reads.

use vstd::prelude::*;

verus! {

/// Settings of the identity provider (OpenID Connect).
#[derive(Clone, Debug, PartialEq, Eq)]
pub struct OidcConfig {
    /// Where the provider's metadata is discovered.
    pub discover_url: String,
    /// The client id registered with the provider.
    pub client_id: String,
    /// The client secret registered with the provider.
    pub client_secret: String,
    /// Where the provider redirects after a login.
    pub redirect_url: String,
}

impl OidcConfig {
    /// A copy of the settings.
    pub fn duplicate(&self) -> (r: OidcConfig)
        ensures
            r == *self,
    {
        OidcConfig {
            discover_url: self.discover_url.clone(),
            client_id: self.client_id.clone(),
            client_secret: self.client_secret.clone(),
            redirect_url: self.redirect_url.clone(),
        }
    }
}

/// Where the server listens.
#[derive(Clone, Debug, PartialEq, Eq)]
pub struct ServerSettings {
    /// The IP address to bind, as text.
    pub listen_address: String,
    /// The port to bind.
    pub listen_port: u16,
}

/// The configuration of the server, borrowed for the duration of startup.
#[derive(Clone, Debug, PartialEq, Eq)]
pub struct Config {
    /// Where the server listens.
    pub server: ServerSettings,
    /// The identity provider; `None` disables it.
    pub openid_connect: Option<OidcConfig>,
}

} // verus!
