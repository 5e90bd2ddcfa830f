//! State of the desktop application.
use vstd::prelude::*;

use crate::time::{utc_now, Timestamp};

verus! {

/// Connection status shown by the application.
#[derive(Debug, PartialEq, Eq)]
pub enum ConnectionStatus {
    Disconnected,
    Connecting,
    Connected,
    Error(String),
}

impl Clone for ConnectionStatus {
    fn clone(&self) -> (c: Self)
        ensures
            c == *self,
    {
        match self {
            ConnectionStatus::Disconnected => ConnectionStatus::Disconnected,
            ConnectionStatus::Connecting => ConnectionStatus::Connecting,
            ConnectionStatus::Connected => ConnectionStatus::Connected,
            ConnectionStatus::Error(e) => ConnectionStatus::Error(e.clone()),
        }
    }
}

impl Default for ConnectionStatus {
    fn default() -> (s: Self)
        ensures
            s is Disconnected,
    {
        ConnectionStatus::Disconnected
    }
}

/// A saved server profile.
#[derive(Debug)]
pub struct ServerProfile {
    pub id: String,
    pub name: String,
    pub host: String,
    pub port: u16,
    pub token: String,
    pub domain: Option<String>,
    pub mode: ClientMode,
}

impl Clone for ServerProfile {
    fn clone(&self) -> (c: Self)
        ensures
            c == *self,
    {
        ServerProfile {
            id: self.id.clone(),
            name: self.name.clone(),
            host: self.host.clone(),
            port: self.port,
            token: self.token.clone(),
            domain: self.domain.clone(),
            mode: self.mode,
        }
    }
}

/// How the application connects.
#[derive(Debug, Clone, Copy, PartialEq, Eq, Structural)]
pub enum ClientMode {
    Vpn,
    Proxy,
}

/// The server this application deployed and manages.
#[derive(Debug, Clone)]
pub struct ManagedServer {
    pub host: String,
    pub port: u16,
    pub admin_token: String,
    pub domain: Option<String>,
}

impl Default for ManagedServer {
    fn default() -> (m: Self)
        ensures
            m.host@.len() == 0,
            m.port == 0,
            m.admin_token@.len() == 0,
            m.domain is None,
    {
        ManagedServer { host: String::new(), port: 0, admin_token: String::new(), domain: None }
    }
}

/// Everything the application keeps between commands.
#[derive(Debug)]
pub struct AppState {
    pub status: ConnectionStatus,
    pub active_profile: Option<String>,
    pub profiles: Vec<ServerProfile>,
    pub managed_server: Option<ManagedServer>,
    pub bytes_up: u64,
    pub bytes_down: u64,
    pub connected_since: Option<Timestamp>,
}

impl Default for AppState {
    fn default() -> (s: Self)
        ensures
            s.status is Disconnected,
            s.active_profile is None,
            s.profiles@.len() == 0,
            s.managed_server is None,
            s.bytes_up == 0,
            s.bytes_down == 0,
            s.connected_since is None,
    {
        AppState {
            status: ConnectionStatus::Disconnected,
            active_profile: None,
            profiles: Vec::new(),
            managed_server: None,
            bytes_up: 0,
            bytes_down: 0,
            connected_since: None,
        }
    }
}

/// Nanoseconds since the epoch of a timestamp.
pub open spec fn total_nanos(t: Timestamp) -> int {
    t.secs * 1_000_000_000 + t.nanos
}

/// Whole seconds from `since` to `now`, zero if `now` is not later.
pub open spec fn elapsed_spec(since: Option<Timestamp>, now: Timestamp) -> int {
    match since {
        None => 0,
        Some(t) => if total_nanos(now) > total_nanos(t) {
            (total_nanos(now) - total_nanos(t)) / 1_000_000_000
        } else {
            0
        },
    }
}

impl AppState {
    /// Seconds connected as of `now` (zero when not connected).
    pub fn elapsed_secs_at(&self, now: &Timestamp) -> (r: u64)
        requires
            -crate::time::CLOCK_SECS_BOUND <= now.secs <= crate::time::CLOCK_SECS_BOUND,
            self.connected_since matches Some(t) ==> -crate::time::CLOCK_SECS_BOUND <= t.secs
                <= crate::time::CLOCK_SECS_BOUND,
        ensures
            r == elapsed_spec(self.connected_since, *now),
    {
        match &self.connected_since {
            None => 0,
            Some(t) => {
                let a: i128 = (now.secs as i128) * 1_000_000_000 + (now.nanos as i128);
                let b: i128 = (t.secs as i128) * 1_000_000_000 + (t.nanos as i128);
                if a > b {
                    let d: i128 = (a - b) / 1_000_000_000;
                    assert(d <= 20_000_000_000_000_000) by (nonlinear_arith)
                        requires
                            d == (a - b) / 1_000_000_000,
                            a - b <= 18_000_000_000_000_000_000_000_000,
                            a > b,
                    ;
                    d as u64
                } else {
                    0
                }
            },
        }
    }

    /// Seconds connected so far.
    pub fn elapsed_secs(&self) -> (r: u64)
        requires
            self.connected_since matches Some(t) ==> -crate::time::CLOCK_SECS_BOUND <= t.secs
                <= crate::time::CLOCK_SECS_BOUND,
        ensures
            self.connected_since is None ==> r == 0,
            exists|now: Timestamp|
                0 <= now.secs <= crate::time::CHRONO_MAX_SECS && now.nanos < 1_000_000_000 && r
                    == #[trigger] elapsed_spec(self.connected_since, now),
    {
        let now = utc_now();
        self.elapsed_secs_at(&now)
    }
}

} // verus!
