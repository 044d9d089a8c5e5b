//! Verified core of a single-process SSH client that reaches its server
//! through an embedded Tor client: destination parsing, host-key
//! fingerprint checks, the algorithm profile, authentication and session
//! decisions.

pub mod auth;
pub mod destination;
pub mod error;
pub mod fingerprint;
pub mod kexinit;
pub mod key;
pub mod methods;
pub mod profile;
pub mod session;
pub mod text;
pub mod transport;
