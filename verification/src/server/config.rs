//! Server configuration schema, defaults and validation.
use vstd::prelude::*;

use crate::error::VeilError;
use crate::protocol::NodeRole;

verus! {

/// Complete server configuration.
#[derive(Debug, Clone)]
pub struct ServerConfig {
    pub node: NodeConfig,
    pub listen: ListenConfig,
    pub tls: TlsConfig,
    pub auth: AuthConfig,
    pub relay: RelayConfig,
    pub limits: LimitsConfig,
    pub logging: LoggingConfig,
    pub admin: AdminConfig,
    pub obfuscation: ObfuscationConfig,
}

/// This node's role and exit policy.
#[derive(Debug, Clone)]
pub struct NodeConfig {
    pub role: NodeRole,
    pub name: Option<String>,
    /// Allowed exit destinations (CIDR or hostnames). Empty = allow all.
    pub allowed_destinations: Vec<String>,
}

/// Listening addresses and ports.
#[derive(Debug, Clone)]
pub struct ListenConfig {
    /// IP address to bind, in text form
    pub bind: String,
    /// Primary QUIC/HTTP3 port
    pub quic_port: u16,
    /// Fallback TCP/TLS port
    pub tcp_port: u16,
    /// Additional ports to listen on for camouflage
    pub extra_ports: Vec<u16>,
}

impl Default for ListenConfig {
    fn default() -> (c: Self)
        ensures
            c.bind@ == "0.0.0.0"@,
            c.quic_port == 443,
            c.tcp_port == 443,
            c.extra_ports@ == seq![8443u16, 2053u16],
    {
        let mut extra_ports: Vec<u16> = Vec::new();
        extra_ports.push(8443);
        extra_ports.push(2053);
        ListenConfig { bind: String::from_str("0.0.0.0"), quic_port: 443, tcp_port: 443, extra_ports }
    }
}

/// TLS certificate and camouflage settings.
#[derive(Debug, Clone)]
pub struct TlsConfig {
    pub cert_path: String,
    pub key_path: String,
    /// Server Name Indication - domain to present
    pub sni: Option<String>,
    /// ALPN protocols (for HTTP/3 camouflage use h3)
    pub alpn: Vec<String>,
    /// Key rotation interval in hours
    pub key_rotation_hours: Option<u64>,
}

/// The ALPN list used when the configuration names none: h3, h2, http/1.1.
pub fn default_alpn() -> (v: Vec<String>)
    ensures
        v@.len() == 3,
        v@[0]@ == "h3"@,
        v@[1]@ == "h2"@,
        v@[2]@ == "http/1.1"@,
{
    let mut v: Vec<String> = Vec::new();
    v.push(String::from_str("h3"));
    v.push(String::from_str("h2"));
    v.push(String::from_str("http/1.1"));
    v
}

/// Token authentication settings.
#[derive(Debug)]
pub struct AuthConfig {
    /// Master signing key for tokens (hex-encoded 32 bytes)
    pub signing_key: String,
    /// Static access tokens
    pub tokens: Vec<TokenEntry>,
    /// Short-lived invite token TTL in seconds
    pub invite_ttl_seconds: u64,
    /// Enable rate limiting on auth attempts
    pub rate_limit: bool,
    /// Tarpitting delay on failed auth (ms)
    pub tarpit_ms: u64,
}

impl Clone for AuthConfig {
    fn clone(&self) -> (c: Self)
        ensures
            c.signing_key == self.signing_key,
            c.tokens@ == self.tokens@,
            c.invite_ttl_seconds == self.invite_ttl_seconds,
            c.rate_limit == self.rate_limit,
            c.tarpit_ms == self.tarpit_ms,
    {
        let tokens = self.tokens.clone();
        assert(tokens@ =~= self.tokens@);
        AuthConfig {
            signing_key: self.signing_key.clone(),
            tokens,
            invite_ttl_seconds: self.invite_ttl_seconds,
            rate_limit: self.rate_limit,
            tarpit_ms: self.tarpit_ms,
        }
    }
}

/// A static access token, stored by its SHA-256 hash.
#[derive(Debug)]
pub struct TokenEntry {
    pub id: String,
    /// SHA-256 of the actual token, lowercase hexadecimal
    pub token_hash: String,
    pub label: Option<String>,
    pub is_admin: bool,
    pub expires_at: Option<String>,
}

impl Clone for TokenEntry {
    fn clone(&self) -> (t: Self)
        ensures
            t == *self,
    {
        TokenEntry {
            id: self.id.clone(),
            token_hash: self.token_hash.clone(),
            label: self.label.clone(),
            is_admin: self.is_admin,
            expires_at: self.expires_at.clone(),
        }
    }
}

/// What the relay may carry.
#[derive(Debug, Clone)]
pub struct RelayConfig {
    pub tcp_enabled: bool,
    pub udp_enabled: bool,
    pub dns_enabled: bool,
    /// Max concurrent relay streams per session
    pub max_streams_per_session: usize,
}

impl Default for RelayConfig {
    fn default() -> (c: Self)
        ensures
            c.tcp_enabled && c.udp_enabled && c.dns_enabled,
            c.max_streams_per_session == 256,
    {
        RelayConfig { tcp_enabled: true, udp_enabled: true, dns_enabled: true, max_streams_per_session: 256 }
    }
}

/// Resource limits.
#[derive(Debug, Clone)]
pub struct LimitsConfig {
    pub max_sessions: usize,
    pub bandwidth_mbps: Option<u32>,
    pub session_timeout_secs: u64,
    /// DDoS rate limit: connections per second per IP
    pub connect_rate_per_ip: u32,
}

impl Default for LimitsConfig {
    fn default() -> (c: Self)
        ensures
            c.max_sessions == 1000,
            c.bandwidth_mbps is None,
            c.session_timeout_secs == 3600,
            c.connect_rate_per_ip == 10,
    {
        LimitsConfig { max_sessions: 1000, bandwidth_mbps: None, session_timeout_secs: 3600, connect_rate_per_ip: 10 }
    }
}

/// Logging settings.
#[derive(Debug, Clone)]
pub struct LoggingConfig {
    /// Log level: error, warn, info, debug, trace
    pub level: String,
    /// Disable logging entirely
    pub disabled: bool,
    /// Log to file
    pub file: Option<String>,
}

impl Default for LoggingConfig {
    fn default() -> (c: Self)
        ensures
            c.level@ == "warn"@,
            !c.disabled,
            c.file is None,
    {
        LoggingConfig { level: String::from_str("warn"), disabled: false, file: None }
    }
}

/// Admin API settings.
#[derive(Debug, Clone)]
pub struct AdminConfig {
    pub enabled: bool,
    /// IP address to bind, in text form
    pub bind: String,
    pub port: u16,
    /// Admin API token (separate from user tokens)
    pub admin_token: String,
}

impl Default for AdminConfig {
    fn default() -> (c: Self)
        ensures
            c.enabled,
            c.bind@ == "127.0.0.1"@,
            c.port == 9090,
            c.admin_token@.len() == 0,
    {
        AdminConfig { enabled: true, bind: String::from_str("127.0.0.1"), port: 9090, admin_token: String::new() }
    }
}

/// Traffic obfuscation settings.
#[derive(Debug, Clone)]
pub struct ObfuscationConfig {
    /// Add random padding to frames
    pub padding_enabled: bool,
    /// Packet size normalization to common HTTPS sizes
    pub size_normalization: bool,
    /// Add idle noise when session is quiet
    pub idle_noise: bool,
    /// Burst shaping
    pub burst_shaping: bool,
}

impl Default for ObfuscationConfig {
    fn default() -> (c: Self)
        ensures
            c.padding_enabled,
            c.size_normalization,
            !c.idle_noise,
            c.burst_shaping,
    {
        ObfuscationConfig { padding_enabled: true, size_normalization: true, idle_noise: false, burst_shaping: true }
    }
}

/// The first validation rule a configuration breaks, if any.
pub open spec fn validation_failure(c: ServerConfig) -> Option<Seq<char>> {
    if c.tls.cert_path@.len() == 0 || c.tls.key_path@.len() == 0 {
        Some("TLS cert and key paths must be set"@)
    } else if c.auth.signing_key@.len() == 0 {
        Some("auth.signing_key must be set"@)
    } else if c.admin.enabled && c.admin.admin_token@.len() == 0 {
        Some("admin.admin_token must be set when admin API is enabled"@)
    } else {
        None
    }
}

impl ServerConfig {
    /// Checks that the settings a running server needs are present; the
    /// error names the first one missing.
    pub fn validate(&self) -> (r: Result<(), VeilError>)
        ensures
            match r {
                Ok(()) => validation_failure(*self) is None,
                Err(e) => (e is Config) && validation_failure(*self) == Some(e.detail()),
            },
    {
        if self.tls.cert_path.as_str().is_empty() || self.tls.key_path.as_str().is_empty() {
            return Err(VeilError::Config(String::from_str("TLS cert and key paths must be set")));
        }
        if self.auth.signing_key.as_str().is_empty() {
            return Err(VeilError::Config(String::from_str("auth.signing_key must be set")));
        }
        if self.admin.enabled && self.admin.admin_token.as_str().is_empty() {
            return Err(
                VeilError::Config(
                    String::from_str("admin.admin_token must be set when admin API is enabled"),
                ),
            );
        }
        Ok(())
    }
}

} // verus!
