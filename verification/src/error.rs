//! The errors that the client reports.

use vstd::prelude::*;
use vstd::string::*;

verus! {

/// Every failure that the library's decisions can produce.
#[derive(Debug)]
pub enum AnonError {
    /// The destination is missing or not of the form `user@host`.
    InvalidDestination,
    /// An exit country was requested for an onion service.
    ExitCountryForOnion,
    /// Bridges were given but no pluggable transport binary was found.
    TransportNotFound,
    /// The pluggable transport candidate (by its displayed path) is not a file.
    TransportNotFile(String),
    /// The pluggable transport candidate (by its displayed path) is not executable.
    TransportNotExecutable(String),
    /// A bridge line does not name a pluggable transport.
    BridgeWithoutTransport,
    /// Authentication failed; the server's remaining methods as rendered.
    AuthenticationFailed(String),
    /// Keyboard-interactive authentication failed with the given remaining
    /// methods (as rendered) and partial-success flag.
    KeyboardInteractiveFailed(String, bool),
}

/// The text of each error, as the user sees it.
pub open spec fn error_message(e: AnonError) -> Seq<char> {
    match e {
        AnonError::InvalidDestination => "destination must be user@host"@,
        AnonError::ExitCountryForOnion => "--exit-country cannot be used with an onion service"@,
        AnonError::TransportNotFound =>
            "bridge requires --pt-path, ANONSSH_PT_PATH, or a discoverable lyrebird executable"@,
        AnonError::TransportNotFile(p) => "pluggable transport is not a file: "@ + p@,
        AnonError::TransportNotExecutable(p) => "pluggable transport is not executable: "@ + p@,
        AnonError::BridgeWithoutTransport => "bridge line does not name a pluggable transport"@,
        AnonError::AuthenticationFailed(m) => "SSH authentication failed (remaining methods: "@
            + m@ + ")"@,
        AnonError::KeyboardInteractiveFailed(m, partial) => "SSH authentication failed (remaining methods: "@
            + m@ + "; partial success: "@ + (if partial {
            "true"@
        } else {
            "false"@
        }) + ")"@,
    }
}

impl AnonError {
    /// Renders the error for the user.
    pub fn message(&self) -> (m: String)
        ensures
            m@ == error_message(*self),
    {
        match self {
            AnonError::InvalidDestination => String::from_str("destination must be user@host"),
            AnonError::ExitCountryForOnion => String::from_str(
                "--exit-country cannot be used with an onion service",
            ),
            AnonError::TransportNotFound => String::from_str(
                "bridge requires --pt-path, ANONSSH_PT_PATH, or a discoverable lyrebird executable",
            ),
            AnonError::TransportNotFile(p) => {
                let mut m = String::from_str("pluggable transport is not a file: ");
                m.append(p.as_str());
                m
            },
            AnonError::TransportNotExecutable(p) => {
                let mut m = String::from_str("pluggable transport is not executable: ");
                m.append(p.as_str());
                m
            },
            AnonError::BridgeWithoutTransport => String::from_str(
                "bridge line does not name a pluggable transport",
            ),
            AnonError::AuthenticationFailed(r) => {
                let mut m = String::from_str("SSH authentication failed (remaining methods: ");
                m.append(r.as_str());
                m.append(")");
                m
            },
            AnonError::KeyboardInteractiveFailed(r, partial) => {
                let mut m = String::from_str("SSH authentication failed (remaining methods: ");
                m.append(r.as_str());
                m.append("; partial success: ");
                if *partial {
                    m.append("true");
                } else {
                    m.append("false");
                }
                m.append(")");
                m
            },
        }
    }
}

} // verus!
