//! The library's error type.
use vstd::prelude::*;

use crate::text::push_str;

verus! {

/// I/O errors carried through unchanged.
#[verifier::external_type_specification]
#[verifier::external_body]
pub struct ExIoError(std::io::Error);

/// JSON errors carried through unchanged.
#[verifier::external_type_specification]
#[verifier::external_body]
pub struct ExJsonError(serde_json::Error);

/// Errors of the Veil protocol, transports and configuration.
#[derive(Debug)]
pub enum VeilError {
    AuthFailed(String),
    Connection(String),
    Transport(String),
    Config(String),
    Crypto(String),
    Protocol(String),
    Relay(String),
    Dns(String),
    Io(std::io::Error),
    Serde(serde_json::Error),
    Timeout,
    NotAuthenticated,
    AccessDenied,
    Internal(String),
}

/// `Display` text of an I/O error.
#[verifier::external_body]
fn io_error_text(e: &std::io::Error) -> String {
    e.to_string()
}

/// `Display` text of a JSON error.
#[verifier::external_body]
fn json_error_text(e: &serde_json::Error) -> String {
    e.to_string()
}

impl VeilError {
    /// The text a variant carries (empty for the others).
    pub open spec fn detail(self) -> Seq<char> {
        match self {
            VeilError::AuthFailed(d) => d@,
            VeilError::Connection(d) => d@,
            VeilError::Transport(d) => d@,
            VeilError::Config(d) => d@,
            VeilError::Crypto(d) => d@,
            VeilError::Protocol(d) => d@,
            VeilError::Relay(d) => d@,
            VeilError::Dns(d) => d@,
            VeilError::Internal(d) => d@,
            _ => Seq::empty(),
        }
    }

    /// The displayed text of the error, for the variants whose text the
    /// library fixes (all but `Io` and `Serde`, which show the outside
    /// error's own text).
    pub open spec fn text_spec(self) -> Option<Seq<char>> {
        match self {
            VeilError::AuthFailed(d) => Some("Authentication failed: "@ + d@),
            VeilError::Connection(d) => Some("Connection error: "@ + d@),
            VeilError::Transport(d) => Some("Transport error: "@ + d@),
            VeilError::Config(d) => Some("Configuration error: "@ + d@),
            VeilError::Crypto(d) => Some("Crypto error: "@ + d@),
            VeilError::Protocol(d) => Some("Protocol violation: "@ + d@),
            VeilError::Relay(d) => Some("Relay error: "@ + d@),
            VeilError::Dns(d) => Some("DNS error: "@ + d@),
            VeilError::Io(_) => None,
            VeilError::Serde(_) => None,
            VeilError::Timeout => Some("Timeout"@),
            VeilError::NotAuthenticated => Some("Not authenticated"@),
            VeilError::AccessDenied => Some("Access denied"@),
            VeilError::Internal(d) => Some("Internal error: "@ + d@),
        }
    }

    /// The human-readable message of the error, as it is displayed.
    pub fn message(&self) -> (m: String)
        ensures
            self.text_spec() matches Some(t) ==> m@ == t,
            self is Io ==> "IO error: "@.is_prefix_of(m@),
            self is Serde ==> "Serialization error: "@.is_prefix_of(m@),
    {
        let mut m = String::new();
        assert(m@ + "Timeout"@ =~= "Timeout"@);
        match self {
            VeilError::AuthFailed(d) => {
                push_str(&mut m, "Authentication failed: ");
                push_str(&mut m, d.as_str());
            },
            VeilError::Connection(d) => {
                push_str(&mut m, "Connection error: ");
                push_str(&mut m, d.as_str());
            },
            VeilError::Transport(d) => {
                push_str(&mut m, "Transport error: ");
                push_str(&mut m, d.as_str());
            },
            VeilError::Config(d) => {
                push_str(&mut m, "Configuration error: ");
                push_str(&mut m, d.as_str());
            },
            VeilError::Crypto(d) => {
                push_str(&mut m, "Crypto error: ");
                push_str(&mut m, d.as_str());
            },
            VeilError::Protocol(d) => {
                push_str(&mut m, "Protocol violation: ");
                push_str(&mut m, d.as_str());
            },
            VeilError::Relay(d) => {
                push_str(&mut m, "Relay error: ");
                push_str(&mut m, d.as_str());
            },
            VeilError::Dns(d) => {
                push_str(&mut m, "DNS error: ");
                push_str(&mut m, d.as_str());
            },
            VeilError::Io(e) => {
                push_str(&mut m, "IO error: ");
                let t = io_error_text(e);
                push_str(&mut m, t.as_str());
                assert("IO error: "@ =~= m@.subrange(0, "IO error: "@.len() as int));
            },
            VeilError::Serde(e) => {
                push_str(&mut m, "Serialization error: ");
                let t = json_error_text(e);
                push_str(&mut m, t.as_str());
                assert("Serialization error: "@ =~= m@.subrange(
                    0,
                    "Serialization error: "@.len() as int,
                ));
            },
            VeilError::Timeout => {
                push_str(&mut m, "Timeout");
            },
            VeilError::NotAuthenticated => {
                push_str(&mut m, "Not authenticated");
            },
            VeilError::AccessDenied => {
                push_str(&mut m, "Access denied");
            },
            VeilError::Internal(d) => {
                push_str(&mut m, "Internal error: ");
                push_str(&mut m, d.as_str());
            },
        }
        m
    }
}

/// An error as the programs report it: a protocol error, or a plain message
/// shown as it is.
#[derive(Debug)]
pub enum Failure {
    Veil(VeilError),
    Message(String),
}

impl Failure {
    /// The displayed text, where the library fixes it.
    pub open spec fn text_spec(self) -> Option<Seq<char>> {
        match self {
            Failure::Veil(e) => e.text_spec(),
            Failure::Message(t) => Some(t@),
        }
    }

    /// The human-readable message of the error.
    pub fn message(&self) -> (m: String)
        ensures
            self.text_spec() matches Some(t) ==> m@ == t,
    {
        match self {
            Failure::Veil(e) => e.message(),
            Failure::Message(t) => t.clone(),
        }
    }
}

} // verus!
