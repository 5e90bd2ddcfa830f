//! The client's persisted configuration: server profiles and the server it
//! manages.
use vstd::prelude::*;

use crate::error::VeilError;
use crate::text::{dec_spec, push_decimal, push_str};

verus! {

/// Persisted client configuration.
#[derive(Debug, Clone)]
pub struct ClientConfig {
    pub profiles: Vec<ServerProfile>,
    pub active_profile: Option<String>,
    pub managed_server: Option<ManagedServer>,
}

impl Default for ClientConfig {
    fn default() -> (c: Self)
        ensures
            c.profiles@.len() == 0,
            c.active_profile is None,
            c.managed_server is None,
    {
        ClientConfig { profiles: Vec::new(), active_profile: None, managed_server: None }
    }
}

/// A server the client can connect to.
#[derive(Debug, Clone)]
pub struct ServerProfile {
    pub name: String,
    pub host: String,
    pub port: u16,
    pub token: String,
    pub domain: Option<String>,
    pub ca_cert: Option<String>,
}

/// A server this client deployed and administers.
#[derive(Debug, Clone)]
pub struct ManagedServer {
    pub host: String,
    pub ssh_port: u16,
    pub veil_port: u16,
    pub admin_token: String,
    pub domain: Option<String>,
    pub installed_at: String,
}

/// `https://<host>:<port>/api/v1`.
pub open spec fn management_url_spec(host: Seq<char>, port: u16) -> Seq<char> {
    "https://"@ + host + ":"@ + dec_spec(port as nat) + "/api/v1"@
}

impl ClientConfig {
    /// The admin API base URL of the managed server, if there is one.
    pub fn management_url(&self) -> (r: Option<String>)
        ensures
            match self.managed_server {
                None => r is None,
                Some(m) => r matches Some(u) && u@ == management_url_spec(m.host@, m.veil_port),
            },
    {
        match &self.managed_server {
            None => None,
            Some(s) => {
                let mut u = String::new();
                push_str(&mut u, "https://");
                push_str(&mut u, s.host.as_str());
                push_str(&mut u, ":");
                push_decimal(&mut u, s.veil_port as u64);
                push_str(&mut u, "/api/v1");
                assert(u@ =~= management_url_spec(s.host@, s.veil_port));
                Some(u)
            },
        }
    }

    /// The managed server's admin token; a configuration error when no
    /// server is managed.
    pub fn admin_token(&self) -> (r: Result<String, VeilError>)
        ensures
            match self.managed_server {
                None => r matches Err(e) && (e is Config) && e.detail()
                    == "No admin token configured"@,
                Some(m) => r matches Ok(t) && t@ == m.admin_token@,
            },
    {
        match &self.managed_server {
            None => Err(VeilError::Config(String::from_str("No admin token configured"))),
            Some(s) => Ok(s.admin_token.clone()),
        }
    }
}

/// What the `config` command does.
#[derive(Debug, Clone)]
pub enum ConfigAction {
    Show,
    SetValue { key: String, value: String },
    Reset,
}

} // verus!
