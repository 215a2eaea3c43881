//! What the process is configured with.

use vstd::prelude::*;

verus! {

/// The user agent that every request to the upstream service carries.
pub const USER_AGENT: &'static str = "web:shuttle-redddit:0.0.1 (by u/steve_dark03)";

/// The secret that holds the OAuth client id.
pub const CLIENT_ID_KEY: &'static str = "PUBLIC_CLIENT_ID";

/// The secret that holds the OAuth client secret.
pub const CLIENT_SECRET_KEY: &'static str = "CLIENT_SECRET";

/// The secret that holds the URI to which the upstream service sends the
/// browser back after a login.
pub const REDIRECT_URI_KEY: &'static str = "PUBLIC_REDIRECT_URI";

/// The values that the process is configured with at startup and that no
/// request changes.
#[derive(Debug, PartialEq, Eq)]
pub struct Config {
    pub client_id: String,
    pub client_secret: String,
    pub redirect_uri: String,
}

/// The mathematical value of a [`Config`].
pub struct ConfigValue {
    pub client_id: Seq<char>,
    pub client_secret: Seq<char>,
    pub redirect_uri: Seq<char>,
}

impl DeepView for Config {
    type V = ConfigValue;

    open spec fn deep_view(&self) -> ConfigValue {
        ConfigValue {
            client_id: self.client_id@,
            client_secret: self.client_secret@,
            redirect_uri: self.redirect_uri@,
        }
    }
}

/// A configuration that cannot be built: a secret is missing.
#[derive(Clone, Copy, Debug, PartialEq, Eq, Structural)]
pub enum ConfigError {
    MissingClientId,
    MissingClientSecret,
    MissingRedirectUri,
}

impl DeepView for ConfigError {
    type V = ConfigError;

    open spec fn deep_view(&self) -> ConfigError {
        *self
    }
}

impl ConfigError {
    /// The name of the secret that is missing.
    pub open spec fn key_name(self) -> Seq<char> {
        match self {
            ConfigError::MissingClientId => CLIENT_ID_KEY@,
            ConfigError::MissingClientSecret => CLIENT_SECRET_KEY@,
            ConfigError::MissingRedirectUri => REDIRECT_URI_KEY@,
        }
    }

    /// The name of the secret that is missing.
    pub fn key(&self) -> (r: &'static str)
        ensures
            r@ == self.key_name(),
    {
        match self {
            ConfigError::MissingClientId => CLIENT_ID_KEY,
            ConfigError::MissingClientSecret => CLIENT_SECRET_KEY,
            ConfigError::MissingRedirectUri => REDIRECT_URI_KEY,
        }
    }
}

/// The configuration made of the three secrets, or the first of them, in
/// the order client id, client secret, redirect URI, that is missing.
pub open spec fn configured(
    client_id: Option<Seq<char>>,
    client_secret: Option<Seq<char>>,
    redirect_uri: Option<Seq<char>>,
) -> Result<ConfigValue, ConfigError> {
    match (client_id, client_secret, redirect_uri) {
        (None, _, _) => Err(ConfigError::MissingClientId),
        (Some(_), None, _) => Err(ConfigError::MissingClientSecret),
        (Some(_), Some(_), None) => Err(ConfigError::MissingRedirectUri),
        (Some(id), Some(secret), Some(uri)) => Ok(
            ConfigValue { client_id: id, client_secret: secret, redirect_uri: uri },
        ),
    }
}

/// Builds the configuration from the values of the three secrets, each as
/// the secret store gave it.
pub fn init(
    client_id: Option<String>,
    client_secret: Option<String>,
    redirect_uri: Option<String>,
) -> (r: Result<Config, ConfigError>)
    ensures
        crate::field::outcome(r) == configured(
            client_id.deep_view(),
            client_secret.deep_view(),
            redirect_uri.deep_view(),
        ),
{
    let client_id = match client_id {
        Some(v) => v,
        None => {
            return Err(ConfigError::MissingClientId);
        },
    };
    let client_secret = match client_secret {
        Some(v) => v,
        None => {
            return Err(ConfigError::MissingClientSecret);
        },
    };
    let redirect_uri = match redirect_uri {
        Some(v) => v,
        None => {
            return Err(ConfigError::MissingRedirectUri);
        },
    };
    Ok(Config { client_id, client_secret, redirect_uri })
}

} // verus!
