//! Protocol types: version negotiation, transports, profiles, roles,
//! session tokens, and the frame, handshake and session submodules.
use vstd::prelude::*;

use crate::text::{push_char, push_decimal, dec_spec};

pub mod datagram;
pub mod frame;
pub mod handshake;
pub mod session;

verus! {

/// Protocol version negotiation.
#[derive(Debug, Clone, Copy, PartialEq, Eq, Structural)]
pub struct ProtocolVersion {
    pub major: u8,
    pub minor: u8,
    pub patch: u8,
}

impl ProtocolVersion {
    /// The version this implementation speaks: 0.1.0.
    pub fn current() -> (v: Self)
        ensures
            v.major == 0 && v.minor == 1 && v.patch == 0,
    {
        ProtocolVersion { major: 0, minor: 1, patch: 0 }
    }

    /// Two versions are compatible when their major numbers match.
    pub fn is_compatible(&self, other: &Self) -> (r: bool)
        ensures
            r == (self.major == other.major),
    {
        self.major == other.major
    }

    /// `major.minor.patch`, as the version is displayed.
    pub open spec fn text_spec(self) -> Seq<char> {
        dec_spec(self.major as nat).push('.') + dec_spec(self.minor as nat).push('.') + dec_spec(
            self.patch as nat,
        )
    }

    /// The displayed form of the version, `major.minor.patch`.
    pub fn to_text(&self) -> (s: String)
        ensures
            s@ == self.text_spec(),
    {
        let mut s = String::new();
        push_decimal(&mut s, self.major as u64);
        push_char(&mut s, '.');
        push_decimal(&mut s, self.minor as u64);
        push_char(&mut s, '.');
        push_decimal(&mut s, self.patch as u64);
        assert(s@ =~= self.text_spec());
        s
    }
}

/// Compatibility is an equivalence: reflexive, symmetric and transitive.
pub proof fn lemma_compatibility_equivalence(a: ProtocolVersion, b: ProtocolVersion, c: ProtocolVersion)
    ensures
        a.major == a.major,
        (a.major == b.major) == (b.major == a.major),
        (a.major == b.major && b.major == c.major) ==> a.major == c.major,
{
}

/// Transport mode selection.
#[derive(Debug, Clone, Copy, PartialEq, Eq, Structural)]
pub enum TransportMode {
    /// Primary: QUIC + TLS 1.3 + HTTP/3 camouflage
    QuicHttp3,
    /// Fallback: TLS over TCP (HTTP/2)
    TlsTcp,
    /// WireGuard compatibility mode
    WireGuardCompat,
}

/// Traffic profile.
#[derive(Debug, Clone, Copy, PartialEq, Eq, Structural)]
pub enum TrafficProfile {
    Balanced,
    Realtime,
    Throughput,
    Stealth,
}

impl Default for TrafficProfile {
    fn default() -> (p: Self)
        ensures
            p == TrafficProfile::Balanced,
    {
        TrafficProfile::Balanced
    }
}

/// Node role in a multi-hop topology.
#[derive(Debug, Clone, Copy, PartialEq, Eq, Structural)]
pub enum NodeRole {
    Entry,
    Relay,
    Exit,
    /// Combines all roles (single-hop mode)
    All,
}

/// Unique session identifier: short-lived, not persistent.
#[derive(Debug, Clone, PartialEq, Eq, Hash)]
pub struct SessionToken(pub String);

/// The hyphenated lowercase text of a version 4 UUID: 36 characters,
/// hyphens at positions 8, 13, 18 and 23, lowercase hex digits elsewhere,
/// the version digit `4` at position 14 and the variant digit (`8`, `9`,
/// `a` or `b`) at position 19.
pub open spec fn uuid_v4_text(s: Seq<char>) -> bool {
    &&& s.len() == 36
    &&& forall|i: int|
        0 <= i < 36 ==> if i == 8 || i == 13 || i == 18 || i == 23 {
            s[i] == '-'
        } else {
            crate::crypto::hex::is_lower_hex_char(#[trigger] s[i])
        }
    &&& s[14] == '4'
    &&& (s[19] == '8' || s[19] == '9' || s[19] == 'a' || s[19] == 'b')
}

/// A fresh random (version 4) UUID in its hyphenated text form
/// (`uuid::Uuid::new_v4`, then `to_string`).
#[verifier::external_body]
pub(crate) fn new_uuid_v4_text() -> (s: String)
    ensures
        uuid_v4_text(s@),
{
    uuid::Uuid::new_v4().to_string()
}

impl SessionToken {
    /// A fresh random token: a version 4 UUID in hyphenated form.
    pub fn generate() -> (t: Self)
        ensures
            uuid_v4_text(t.0@),
    {
        SessionToken(new_uuid_v4_text())
    }
}

} // verus!
