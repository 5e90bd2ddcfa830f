//! Handshake messages exchanged before a session is active.
use vstd::prelude::*;

use super::{ProtocolVersion, TrafficProfile, TransportMode};

verus! {

/// Client to server: initial hello.
#[derive(Debug, Clone)]
pub struct ClientHello {
    pub version: ProtocolVersion,
    pub supported_transports: Vec<TransportMode>,
    pub preferred_profile: TrafficProfile,
    /// Random nonce for replay protection
    pub nonce: [u8; 32],
    /// ALPN to present (e.g. "h3", "h2", "veil/1")
    pub alpn: Vec<String>,
}

/// Server to client: hello response with the chosen transport.
#[derive(Debug, Clone)]
pub struct ServerHello {
    pub version: ProtocolVersion,
    pub chosen_transport: TransportMode,
    /// Server nonce
    pub nonce: [u8; 32],
    /// Anti-probing challenge (must be answered before relay is activated)
    pub challenge: Option<AuthChallenge>,
}

/// Server to client: authentication challenge.
#[derive(Debug, Clone)]
pub struct AuthChallenge {
    pub challenge_id: String,
    pub challenge_bytes: Vec<u8>,
    pub method: AuthMethod,
}

/// How a client proves its identity.
#[derive(Debug, Clone, Copy, PartialEq, Eq, Structural)]
pub enum AuthMethod {
    Token,
    Certificate,
    PreSharedKey,
}

/// Client to server: authentication request.
#[derive(Debug, Clone)]
pub struct AuthRequest {
    pub challenge_id: String,
    pub method: AuthMethod,
    /// Encoded credential (token / cert fingerprint / PSK response)
    pub credential: String,
    /// Client public key for session key derivation
    pub client_pubkey: Option<Vec<u8>>,
}

/// Server to client: authentication result.
#[derive(Debug, Clone)]
pub struct AuthResponse {
    pub success: bool,
    pub session_token: Option<String>,
    pub error: Option<String>,
    /// Server public key for session key derivation
    pub server_pubkey: Option<Vec<u8>>,
}

} // verus!
