//! Token authentication and the session registry.
//!
//! A client presents a token; the server hashes it with SHA-256, looks the
//! lowercase hex digest up among the configured token hashes, checks the
//! entry's expiry, and opens an active session. An unknown token is answered
//! only after the configured tarpit delay.
use vstd::prelude::*;

use super::config::{AuthConfig, TokenEntry};
use super::sessions::SessionTable;
use crate::crypto::hex::{decode, encode, hex_decodable, hex_decode_outcome, hex_encode_spec};
use crate::crypto::token::TokenManager;
use crate::crypto::{sha256, sha256_spec};
use crate::error::{Failure, VeilError};
use crate::protocol::handshake::{AuthMethod, AuthRequest};
use crate::protocol::new_uuid_v4_text;
use crate::protocol::session::{Session, SessionState};
use crate::protocol::TransportMode;
use crate::time::{parse_utc_datetime, utc_datetime_from_str, utc_now, Timestamp};

verus! {

/// The lowercase hex SHA-256 digest under which a token is configured.
pub open spec fn token_hash_spec(token: Seq<char>) -> Seq<char> {
    hex_encode_spec(sha256_spec(vstd::utf8::encode_utf8(token)))
}

/// The configured entry that a digest selects: the last one with that hash.
pub open spec fn entry_index(tokens: Seq<TokenEntry>, hash: Seq<char>) -> Option<int> {
    if exists|i: int| 0 <= i < tokens.len() && tokens[i].token_hash@ == hash {
        Some(choose|i: int|
            0 <= i < tokens.len() && tokens[i].token_hash@ == hash && forall|j: int|
                i < j < tokens.len() ==> tokens[j].token_hash@ != hash)
    } else {
        None
    }
}

/// How a presented token fares at time `now`.
#[derive(Debug, Clone, Copy, PartialEq, Eq, Structural)]
pub enum TokenVerdict {
    Accepted,
    BadExpiryDate,
    Expired,
    Unknown,
}

/// The verdict on `token` against the configured entries at `now`.
pub open spec fn token_verdict(tokens: Seq<TokenEntry>, token: Seq<char>, now: Timestamp) -> TokenVerdict {
    match entry_index(tokens, token_hash_spec(token)) {
        None => TokenVerdict::Unknown,
        Some(i) => match tokens[i].expires_at {
            None => TokenVerdict::Accepted,
            Some(s) => match utc_datetime_from_str(s@) {
                None => TokenVerdict::BadExpiryDate,
                Some(exp) => if now.later_than(exp) {
                    TokenVerdict::Expired
                } else {
                    TokenVerdict::Accepted
                },
            },
        },
    }
}

/// Time only ever expires a token: the verdict on a token depends on the
/// instant only through its expiry date, so a token refused as expired
/// stays refused at every later instant, one accepted is accepted at every
/// earlier instant, and any other verdict is the same at all instants.
pub proof fn lemma_token_expiry_is_permanent(tokens: Seq<TokenEntry>, token: Seq<char>, t1: Timestamp, t2: Timestamp)
    requires
        !t1.later_than(t2),
    ensures
        token_verdict(tokens, token, t1) == TokenVerdict::Expired ==> token_verdict(tokens, token, t2)
            == TokenVerdict::Expired,
        token_verdict(tokens, token, t2) == TokenVerdict::Accepted ==> token_verdict(tokens, token, t1)
            == TokenVerdict::Accepted,
        token_verdict(tokens, token, t1) != token_verdict(tokens, token, t2) ==> (token_verdict(
            tokens,
            token,
            t1,
        ) == TokenVerdict::Accepted && token_verdict(tokens, token, t2) == TokenVerdict::Expired),
{
}

/// The error each refusal is reported with: an unreadable expiry date as a
/// plain message, the others as authentication failures.
pub open spec fn verdict_error(e: Failure, v: TokenVerdict) -> bool {
    match v {
        TokenVerdict::BadExpiryDate => e matches Failure::Message(t) && t@ == "Invalid expiry date"@,
        TokenVerdict::Expired => e matches Failure::Veil(x) && (x is AuthFailed) && x.detail()
            == "Token expired"@,
        TokenVerdict::Unknown => e matches Failure::Veil(x) && (x is AuthFailed) && x.detail()
            == "Invalid token"@,
        TokenVerdict::Accepted => false,
    }
}

/// The session opened for an accepted token: active, over QUIC/HTTP3,
/// created at `now`.
pub open spec fn opened_session(id: Seq<char>, now: Timestamp, s: Session) -> bool {
    &&& s.id@ == id
    &&& s.state == SessionState::Active
    &&& s.transport == TransportMode::QuicHttp3
    &&& s.profile == crate::protocol::TrafficProfile::Balanced
    &&& s.created_at == now
    &&& s.last_seen == now
    &&& s.remote_addr is None
    &&& s.bytes_tx == 0
    &&& s.bytes_rx == 0
}

/// The error a malformed signing key is reported with (a plain message).
pub open spec fn signing_key_error(key: Seq<char>, e: Failure) -> bool {
    e matches Failure::Message(t) && t@ == if vstd::utf8::encode_utf8(key).len() % 2 != 0 {
        "odd hex string length"@
    } else {
        "invalid hex: invalid digit found in string"@
    }
}

/// Authentication state of a server.
pub struct AuthManager {
    config: AuthConfig,
    token_manager: TokenManager,
    sessions: SessionTable,
}

impl AuthManager {
    /// The configured static tokens.
    pub closed spec fn tokens(&self) -> Seq<TokenEntry> {
        self.config.tokens@
    }

    /// The tarpit delay, in milliseconds.
    pub closed spec fn tarpit(&self) -> u64 {
        self.config.tarpit_ms
    }

    /// The invite signing key.
    pub closed spec fn signing_key(&self) -> Seq<u8> {
        self.token_manager.key()
    }

    /// The live sessions by identifier.
    pub closed spec fn sessions(&self) -> Map<Seq<char>, Session> {
        self.sessions@
    }

    /// Number of live sessions.
    pub closed spec fn session_count(&self) -> nat {
        self.sessions.count()
    }

    /// An authenticator for `config`, whose signing key is hex-encoded.
    pub fn new(config: &AuthConfig) -> (r: Result<Self, Failure>)
        requires
            hex_decodable(config.signing_key@),
        ensures
            match r {
                Ok(m) => hex_decode_outcome(config.signing_key@) == Some(Some(m.signing_key()))
                    && m.tokens() == config.tokens@ && m.tarpit() == config.tarpit_ms
                    && m.sessions() == Map::<Seq<char>, Session>::empty(),
                Err(e) => hex_decode_outcome(config.signing_key@) == Some(None::<Seq<u8>>)
                    && signing_key_error(config.signing_key@, e),
            },
            r is Ok <==> (config.signing_key@.len() % 2 == 0
                && crate::crypto::hex::all_hex_digits(config.signing_key@)),
    {
        proof {
            crate::crypto::hex::lemma_hex_decode_ok(config.signing_key@);
        }
        let key = match decode(config.signing_key.as_str()) {
            Ok(k) => k,
            Err(_) => {
                let b = config.signing_key.as_str().as_bytes();
                if b.len() % 2 != 0 {
                    return Err(Failure::Message(String::from_str("odd hex string length")));
                } else {
                    return Err(
                        Failure::Message(
                            String::from_str("invalid hex: invalid digit found in string"),
                        ),
                    );
                }
            },
        };
        let token_manager = TokenManager::new(key.as_slice());
        Ok(AuthManager { config: config.clone(), token_manager, sessions: SessionTable::new() })
    }

    /// The configured entry whose hash is `hash` (the last such).
    pub fn find_token(&self, hash: &String) -> (r: Option<usize>)
        ensures
            match r {
                Some(i) => entry_index(self.tokens(), hash@) == Some(i as int) && i < self.tokens().len(),
                None => entry_index(self.tokens(), hash@) is None,
            },
    {
        let tokens = &self.config.tokens;
        let mut i = tokens.len();
        while i > 0
            invariant
                i <= tokens.len(),
                tokens@ == self.tokens(),
                forall|j: int| i <= j < tokens.len() ==> tokens@[j].token_hash@ != hash@,
            decreases i,
        {
            if tokens[i - 1].token_hash == *hash {
                let k = i - 1;
                proof {
                    let t = self.tokens();
                    assert(exists|x: int| 0 <= x < t.len() && t[x].token_hash@ == hash@) by {
                        assert(t[k as int].token_hash@ == hash@);
                    }
                    let w = choose|x: int|
                        0 <= x < t.len() && t[x].token_hash@ == hash@ && forall|j: int|
                            x < j < t.len() ==> t[j].token_hash@ != hash@;
                    assert(w == k as int) by {
                        if w < k {
                            assert(t[k as int].token_hash@ == hash@);
                        }
                        if w > k {
                            assert(t[w].token_hash@ != hash@);
                        }
                    }
                }
                return Some(k);
            }
            i = i - 1;
        }
        None
    }

    /// Checks `token` at `now`; an accepted token opens an active session
    /// with identifier `session_id`, which is recorded. The second result is
    /// how long (ms) to wait before answering: the tarpit delay for an
    /// unknown token, zero otherwise.
    pub fn verify_token_at(&mut self, token: &str, now: Timestamp, session_id: String) -> (r: (
        Result<Session, Failure>,
        u64,
    ))
        ensures
            final(self).tokens() == old(self).tokens(),
            final(self).tarpit() == old(self).tarpit(),
            final(self).signing_key() == old(self).signing_key(),
            match r.0 {
                Ok(s) => token_verdict(old(self).tokens(), token@, now) == TokenVerdict::Accepted
                    && opened_session(session_id@, now, s) && final(self).sessions()
                    == old(self).sessions().insert(session_id@, s),
                Err(e) => verdict_error(e, token_verdict(old(self).tokens(), token@, now))
                    && final(self).sessions() == old(self).sessions(),
            },
            r.1 == if token_verdict(old(self).tokens(), token@, now) == TokenVerdict::Unknown {
                old(self).tarpit()
            } else {
                0
            },
    {
        let digest = sha256(token.as_bytes());
        let hash = encode(digest);
        let idx = match self.find_token(&hash) {
            None => {
                return (
                    Err(Failure::Veil(VeilError::AuthFailed(String::from_str("Invalid token")))),
                    self.config.tarpit_ms,
                );
            },
            Some(i) => i,
        };
        match &self.config.tokens[idx].expires_at {
            None => {},
            Some(exp_str) => match parse_utc_datetime(exp_str.as_str()) {
                None => {
                    return (Err(Failure::Message(String::from_str("Invalid expiry date"))), 0);
                },
                Some(exp) => {
                    if now.is_after(&exp) {
                        return (
                            Err(Failure::Veil(VeilError::AuthFailed(String::from_str("Token expired")))),
                            0,
                        );
                    }
                },
            },
        }
        let mut session = Session::new_at(session_id, TransportMode::QuicHttp3, now);
        session.state = SessionState::Active;
        self.sessions.insert(session.clone());
        (Ok(session), 0)
    }

    /// Checks `token` now, opening a session with a fresh random identifier
    /// when it is accepted.
    pub fn verify_token(&mut self, token: &str) -> (r: (Result<Session, Failure>, u64))
        ensures
            final(self).tokens() == old(self).tokens(),
            r.0 matches Ok(s) ==> crate::protocol::uuid_v4_text(s.id@),
            exists|now: Timestamp|
                #![trigger token_verdict(old(self).tokens(), token@, now)]
                0 <= now.secs <= crate::time::CHRONO_MAX_SECS && now.nanos < 1_000_000_000 && match r.0 {
                    Ok(s) => token_verdict(old(self).tokens(), token@, now) == TokenVerdict::Accepted
                        && opened_session(s.id@, now, s) && final(self).sessions()
                        == old(self).sessions().insert(s.id@, s),
                    Err(e) => verdict_error(e, token_verdict(old(self).tokens(), token@, now))
                        && final(self).sessions() == old(self).sessions(),
                } && r.1 == if token_verdict(old(self).tokens(), token@, now)
                    == TokenVerdict::Unknown {
                    old(self).tarpit()
                } else {
                    0
                },
    {
        let now = utc_now();
        let id = new_uuid_v4_text();
        self.verify_token_at(token, now, id)
    }

    /// Handles an authentication request: token credentials are checked as
    /// `verify_token` does; pre-shared keys and certificates are refused.
    pub fn authenticate(&mut self, req: &AuthRequest) -> (r: (Result<Session, Failure>, u64))
        ensures
            final(self).tokens() == old(self).tokens(),
            r.0 matches Ok(s) ==> crate::protocol::uuid_v4_text(s.id@),
            req.method == AuthMethod::PreSharedKey ==> (r.0 matches Err(Failure::Message(t))
                && t@ == "PSK auth not configured"@ && r.1 == 0 && final(self).sessions()
                == old(self).sessions()),
            req.method == AuthMethod::Certificate ==> (r.0 matches Err(Failure::Message(t))
                && t@ == "Certificate auth not yet implemented"@ && r.1 == 0
                && final(self).sessions() == old(self).sessions()),
            req.method == AuthMethod::Token ==> exists|now: Timestamp|
                #![trigger token_verdict(old(self).tokens(), req.credential@, now)]
                0 <= now.secs <= crate::time::CHRONO_MAX_SECS && now.nanos < 1_000_000_000 && match r.0 {
                    Ok(s) => token_verdict(old(self).tokens(), req.credential@, now)
                        == TokenVerdict::Accepted && opened_session(s.id@, now, s)
                        && final(self).sessions() == old(self).sessions().insert(s.id@, s),
                    Err(e) => verdict_error(e, token_verdict(old(self).tokens(), req.credential@, now))
                        && final(self).sessions() == old(self).sessions(),
                } && r.1 == if token_verdict(old(self).tokens(), req.credential@, now)
                    == TokenVerdict::Unknown {
                    old(self).tarpit()
                } else {
                    0
                },
    {
        match req.method {
            AuthMethod::Token => self.verify_token(req.credential.as_str()),
            AuthMethod::PreSharedKey => self.verify_psk(req.credential.as_str()),
            AuthMethod::Certificate => (
                Err(Failure::Message(String::from_str("Certificate auth not yet implemented"))),
                0,
            ),
        }
    }

    /// Pre-shared key authentication: not configured on this server.
    fn verify_psk(&self, _psk: &str) -> (r: (Result<Session, Failure>, u64))
        ensures
            r.0 matches Err(Failure::Message(t)) && t@ == "PSK auth not configured"@,
            r.1 == 0,
    {
        (Err(Failure::Message(String::from_str("PSK auth not configured"))), 0)
    }

    /// The live session with identifier `id`.
    pub fn get_session(&self, id: &str) -> (r: Option<Session>)
        ensures
            r == if self.sessions().dom().contains(id@) {
                Some(self.sessions()[id@])
            } else {
                None
            },
    {
        self.sessions.get(id)
    }

    /// Ends the session with identifier `id`, if live.
    pub fn remove_session(&mut self, id: &str)
        ensures
            final(self).sessions() == old(self).sessions().remove(id@),
            final(self).tokens() == old(self).tokens(),
            final(self).signing_key() == old(self).signing_key(),
            final(self).tarpit() == old(self).tarpit(),
            final(self).session_count() == if old(self).sessions().dom().contains(id@) {
                (old(self).session_count() - 1) as nat
            } else {
                old(self).session_count()
            },
    {
        self.sessions.remove(id);
    }

    /// Number of live sessions: the size of the registry.
    pub fn active_session_count(&self) -> (n: usize)
        ensures
            n == self.session_count(),
            n == self.sessions().dom().len(),
    {
        self.sessions.len()
    }

    /// A signed invite expiring `ttl_secs` from now (see
    /// `TokenManager::create_invite`).
    pub fn generate_invite(&self, ttl_secs: u64) -> (r: Option<String>)
        ensures
            match r {
                Some(t) => exists|now: i64, b: Seq<u8>|
                    #![trigger crate::crypto::token::invite_token_spec(self.signing_key(), crate::crypto::b64url_nopad(b), ((now as u64) + ttl_secs) as nat)]
                    0 <= now <= crate::time::CHRONO_MAX_SECS && b.len() == 16 && (now as u64) + ttl_secs
                        <= u64::MAX && crate::crypto::token::invite_signature(
                        self.signing_key(),
                        crate::crypto::b64url_nopad(b),
                        ((now as u64) + ttl_secs) as nat,
                    ).len() == 64 && t@ == crate::crypto::token::invite_token_spec(
                        self.signing_key(),
                        crate::crypto::b64url_nopad(b),
                        ((now as u64) + ttl_secs) as nat,
                    ),
                None => exists|now: i64|
                    0 <= now <= crate::time::CHRONO_MAX_SECS
                        && #[trigger] crate::crypto::token::expiry_overflows(now, ttl_secs),
            },
    {
        let r = self.token_manager.create_invite(ttl_secs);
        proof {
            if let Some(ref t) = r {
                let (now, b) = choose|now: i64, b: Seq<u8>|
                    #![trigger crate::crypto::token::invite_token_spec(self.token_manager.key(), crate::crypto::b64url_nopad(b), ((now as u64) + ttl_secs) as nat)]
                    0 <= now <= crate::time::CHRONO_MAX_SECS && b.len() == 16 && (now as u64)
                        + ttl_secs <= u64::MAX && crate::crypto::token::invite_signature(
                        self.token_manager.key(),
                        crate::crypto::b64url_nopad(b),
                        ((now as u64) + ttl_secs) as nat,
                    ).len() == 64 && t@ == crate::crypto::token::invite_token_spec(
                        self.token_manager.key(),
                        crate::crypto::b64url_nopad(b),
                        ((now as u64) + ttl_secs) as nat,
                    );
                assert(t@ == crate::crypto::token::invite_token_spec(
                    self.signing_key(),
                    crate::crypto::b64url_nopad(b),
                    ((now as u64) + ttl_secs) as nat,
                ));
            }
        }
        r
    }
}

} // verus!
