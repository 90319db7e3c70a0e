//! The settings of the OAuth client.

use vstd::prelude::*;

use crate::token::{decode_key, is_hex_text, TokenError};

verus! {

/// The settings of the OAuth client: fixed once the process has started.
#[derive(Debug, Clone, PartialEq, Eq)]
pub struct Config {
    pub authorization_endpoint: String,
    pub token_endpoint: String,
    pub client_id: String,
    pub client_secret: String,
    pub redirect_uri: String,
    /// The symmetric signing key, as hexadecimal digits.
    pub jwt_key: String,
}

/// The settings as plain texts.
pub struct ConfigView {
    pub authorization_endpoint: Seq<char>,
    pub token_endpoint: Seq<char>,
    pub client_id: Seq<char>,
    pub client_secret: Seq<char>,
    pub redirect_uri: Seq<char>,
    pub jwt_key: Seq<char>,
}

impl View for Config {
    type V = ConfigView;

    open spec fn view(&self) -> ConfigView {
        ConfigView {
            authorization_endpoint: self.authorization_endpoint@,
            token_endpoint: self.token_endpoint@,
            client_id: self.client_id@,
            client_secret: self.client_secret@,
            redirect_uri: self.redirect_uri@,
            jwt_key: self.jwt_key@,
        }
    }
}

/// Why the settings cannot be used.
#[derive(Debug, Clone, Copy, PartialEq, Eq, Structural)]
pub enum ConfigError {
    /// The signing key is not an even number of hexadecimal digits.
    InvalidSigningKey,
}

impl Config {
    /// Whether tokens can be signed with these settings.
    pub open spec fn usable(self) -> bool {
        is_hex_text(self.jwt_key@)
    }

    /// Checks the settings once, before any request is served.
    pub fn validate(&self) -> (checked: Result<(), ConfigError>)
        ensures
            checked is Ok <==> self.usable(),
            checked is Err ==> checked == Err::<(), ConfigError>(ConfigError::InvalidSigningKey),
    {
        match decode_key(self.jwt_key.as_str()) {
            Ok(_) => Ok(()),
            Err(_) => Err(ConfigError::InvalidSigningKey),
        }
    }
}

} // verus!
