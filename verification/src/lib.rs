//! Login against an OpenID-Connect provider with the authorization-code grant.
//!
//! The crate holds the decisions of one login round trip: the consent gate, the
//! redirect to the provider, the request that trades the code, the reading of the
//! provider's answer, the session token and the session cookie. It performs no
//! network or template work itself: callers send what it describes and hand back
//! what they received.

pub mod config;
pub mod cookies;
pub mod encoding;
pub mod exchange;
pub mod login;
pub mod response;
pub mod text;
pub mod token;
