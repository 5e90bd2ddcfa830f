//! The client configuration schema shared by the client and the app, with
//! its defaults.
use vstd::prelude::*;

use crate::protocol::{TrafficProfile, TransportMode};

verus! {

/// Network prefixes (CIDR blocks), carried unchanged.
#[verifier::external_type_specification]
#[verifier::external_body]
pub struct ExIpNet(ipnet::IpNet);

/// Shared client configuration schema.
#[derive(Debug, Clone)]
pub struct ClientConfig {
    pub server: ServerEndpoint,
    pub auth: ClientAuth,
    pub transport: TransportConfig,
    pub proxy: ProxyConfig,
    pub dns: DnsConfig,
    pub routing: RoutingConfig,
    pub privacy: PrivacyConfig,
}

/// Where the server is.
#[derive(Debug, Clone)]
pub struct ServerEndpoint {
    pub host: String,
    pub port: u16,
    pub domain: Option<String>,
    /// Path to custom CA cert (for cert pinning)
    pub ca_cert: Option<String>,
}

/// How the client authenticates.
#[derive(Debug, Clone)]
pub enum ClientAuth {
    Token { token: String },
    PreSharedKey { key: String },
    Certificate { cert_path: String, key_path: String },
}

/// Transport preferences.
#[derive(Debug, Clone)]
pub struct TransportConfig {
    pub mode: TransportMode,
    pub profile: TrafficProfile,
    pub mtu: Option<u16>,
    pub keepalive_secs: Option<u64>,
    pub reconnect_delay_secs: u64,
    pub fallback_enabled: bool,
}

impl Default for TransportConfig {
    fn default() -> (c: Self)
        ensures
            c.mode == TransportMode::QuicHttp3,
            c.profile == TrafficProfile::Balanced,
            c.mtu is None,
            c.keepalive_secs == Some(30u64),
            c.reconnect_delay_secs == 2,
            c.fallback_enabled,
    {
        TransportConfig {
            mode: TransportMode::QuicHttp3,
            profile: TrafficProfile::Balanced,
            mtu: None,
            keepalive_secs: Some(30),
            reconnect_delay_secs: 2,
            fallback_enabled: true,
        }
    }
}

/// Local proxy listeners.
#[derive(Debug, Clone)]
pub struct ProxyConfig {
    pub socks5_port: Option<u16>,
    pub http_port: Option<u16>,
    /// IP address to listen on, in text form
    pub listen_addr: String,
}

impl Default for ProxyConfig {
    fn default() -> (c: Self)
        ensures
            c.socks5_port == Some(1080u16),
            c.http_port == Some(8080u16),
            c.listen_addr@ == "127.0.0.1"@,
    {
        ProxyConfig { socks5_port: Some(1080), http_port: Some(8080), listen_addr: String::from_str("127.0.0.1") }
    }
}

/// DNS handling.
#[derive(Debug, Clone)]
pub struct DnsConfig {
    pub mode: DnsMode,
    pub servers: Vec<String>,
    pub search_domains: Vec<String>,
}

/// Where DNS queries go.
#[derive(Debug, Clone, Copy, PartialEq, Eq, Structural)]
pub enum DnsMode {
    Remote,
    DnsOverTls,
    DnsOverHttps,
    System,
}

impl Default for DnsConfig {
    fn default() -> (c: Self)
        ensures
            c.mode == DnsMode::DnsOverHttps,
            c.servers@.len() == 2,
            c.servers@[0]@ == "1.1.1.1"@,
            c.servers@[1]@ == "8.8.8.8"@,
            c.search_domains@.len() == 0,
    {
        let mut servers: Vec<String> = Vec::new();
        servers.push(String::from_str("1.1.1.1"));
        servers.push(String::from_str("8.8.8.8"));
        DnsConfig { mode: DnsMode::DnsOverHttps, servers, search_domains: Vec::new() }
    }
}

/// Split tunnelling and multi-hop routing.
#[derive(Debug, Clone)]
pub struct RoutingConfig {
    /// Routes to exclude from the tunnel (split tunnel)
    pub bypass_routes: Vec<ipnet::IpNet>,
    /// Only route these through the tunnel (split tunnel)
    pub include_routes: Vec<ipnet::IpNet>,
    pub multi_hop: Option<MultiHopConfig>,
}

impl Default for RoutingConfig {
    fn default() -> (c: Self)
        ensures
            c.bypass_routes@.len() == 0,
            c.include_routes@.len() == 0,
            c.multi_hop is None,
    {
        RoutingConfig { bypass_routes: Vec::new(), include_routes: Vec::new(), multi_hop: None }
    }
}

/// Entry and relay hops.
#[derive(Debug, Clone)]
pub struct MultiHopConfig {
    pub entry: ServerEndpoint,
    pub relay: Option<ServerEndpoint>,
}

/// Leak protection settings.
#[derive(Debug, Clone)]
pub struct PrivacyConfig {
    pub kill_switch: bool,
    pub dns_leak_protection: bool,
    pub ipv6_leak_protection: bool,
    pub block_on_disconnect: bool,
    pub lan_bypass: bool,
}

impl Default for PrivacyConfig {
    fn default() -> (c: Self)
        ensures
            c.kill_switch && c.dns_leak_protection && c.ipv6_leak_protection
                && c.block_on_disconnect,
            !c.lan_bypass,
    {
        PrivacyConfig {
            kill_switch: true,
            dns_leak_protection: true,
            ipv6_leak_protection: true,
            block_on_disconnect: true,
            lan_bypass: false,
        }
    }
}

} // verus!
