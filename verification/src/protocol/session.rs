//! Sessions: the server's record of an authenticated client.
use vstd::prelude::*;

use super::{TrafficProfile, TransportMode};
use crate::time::{utc_now, Timestamp};

verus! {

/// Session identifiers are strings.
pub type SessionId = String;

/// Lifecycle of a session.
#[derive(Debug, Clone, Copy, PartialEq, Eq, Structural)]
pub enum SessionState {
    Handshaking,
    Authenticating,
    Active,
    Migrating,
    Draining,
    Closed,
}

/// An authenticated client's session.
#[derive(Debug)]
pub struct Session {
    pub id: SessionId,
    pub state: SessionState,
    pub transport: TransportMode,
    pub profile: TrafficProfile,
    pub created_at: Timestamp,
    pub last_seen: Timestamp,
    /// Current remote address, `ip:port` (can change on migration)
    pub remote_addr: Option<String>,
    /// Bytes sent/received
    pub bytes_tx: u64,
    pub bytes_rx: u64,
}

impl Clone for Session {
    fn clone(&self) -> (s: Self)
        ensures
            s == *self,
    {
        Session {
            id: self.id.clone(),
            state: self.state,
            transport: self.transport,
            profile: self.profile,
            created_at: self.created_at,
            last_seen: self.last_seen,
            remote_addr: self.remote_addr.clone(),
            bytes_tx: self.bytes_tx,
            bytes_rx: self.bytes_rx,
        }
    }
}

impl Session {
    /// A fresh session started at `now`: handshaking, default profile, no
    /// traffic and no address yet.
    pub open spec fn fresh(id: Seq<char>, transport: TransportMode, now: Timestamp, s: Session) -> bool {
        &&& s.id@ == id
        &&& s.state == SessionState::Handshaking
        &&& s.transport == transport
        &&& s.profile == TrafficProfile::Balanced
        &&& s.created_at == now
        &&& s.last_seen == now
        &&& s.remote_addr is None
        &&& s.bytes_tx == 0
        &&& s.bytes_rx == 0
    }

    /// A new session created at `now`.
    pub fn new_at(id: SessionId, transport: TransportMode, now: Timestamp) -> (s: Self)
        ensures
            Self::fresh(id@, transport, now, s),
    {
        Session {
            id,
            state: SessionState::Handshaking,
            transport,
            profile: TrafficProfile::Balanced,
            created_at: now,
            last_seen: now,
            remote_addr: None,
            bytes_tx: 0,
            bytes_rx: 0,
        }
    }

    /// A new session created now.
    pub fn new(id: SessionId, transport: TransportMode) -> (s: Self)
        ensures
            Self::fresh(id@, transport, s.created_at, s),
            0 <= s.created_at.secs <= crate::time::CHRONO_MAX_SECS,
    {
        let now = utc_now();
        Self::new_at(id, transport, now)
    }

    /// The session is active.
    pub fn is_active(&self) -> (r: bool)
        ensures
            r == (self.state == SessionState::Active),
    {
        self.state == SessionState::Active
    }

    /// Records activity at `now`: only `last_seen` changes, to `now`.
    pub fn touch_at(&mut self, now: Timestamp)
        ensures
            *final(self) == (Session { last_seen: now, ..*old(self) }),
    {
        self.last_seen = now;
    }

    /// Records activity now: only `last_seen` changes, to the current time.
    pub fn touch(&mut self)
        ensures
            *final(self) == (Session { last_seen: final(self).last_seen, ..*old(self) }),
            0 <= final(self).last_seen.secs <= crate::time::CHRONO_MAX_SECS,
    {
        let now = utc_now();
        self.touch_at(now);
    }
}

} // verus!
