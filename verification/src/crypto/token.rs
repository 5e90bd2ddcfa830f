//! Access tokens and HMAC-signed invite tokens.
//!
//! An invite is `invite:<nonce>:<expires>.<signature>`, where `<expires>` is
//! a Unix time in decimal and `<signature>` is the lowercase hexadecimal
//! HMAC-SHA256 of everything before the last `.`.
use vstd::prelude::*;
use vstd::string::StringSliceAdditionalSpecFns;

use super::hex::{decode, encode, hex_byte_spec, hex_char, hex_decodable, hex_decode_outcome, hex_encode_spec, lemma_hex_roundtrip};
use super::{b64url_nopad, generate_token, hmac_sha256, hmac_sha256_spec, is_b64url_char, lemma_b64url_alphabet, verify_hmac_sha256};
use crate::error::VeilError;
use crate::text::{
    all_digits, chars_of, dec_spec, digits_value, find_from, first_index_from, is_digit,
    last_index_of, lemma_dec_digits, parse_u64, parse_u64_spec, push_char, push_decimal,
    push_str, rfind, string_of,
};
use crate::time::{utc_now, Timestamp, CHRONO_MAX_SECS, CHRONO_MIN_SECS, CLOCK_SECS_BOUND};

verus! {

// ---------------------------------------------------------------------------
// Access tokens
// ---------------------------------------------------------------------------

/// Largest number of hours a token lifetime may span (the bound of
/// `chrono::TimeDelta::hours`).
pub const MAX_TTL_HOURS: i64 = 2_562_047_788_015;

/// A user's access token.
#[derive(Debug, Clone)]
pub struct AccessToken {
    pub id: String,
    pub token: String,
    pub created_at: Timestamp,
    pub expires_at: Option<Timestamp>,
    pub label: Option<String>,
    pub is_admin: bool,
}

impl AccessToken {
    /// The expiry a lifetime of `ttl_hours` gives a token created at `now`.
    pub open spec fn expiry_for(now: Timestamp, ttl_hours: Option<i64>) -> Option<Timestamp> {
        match ttl_hours {
            Some(h) => Some(Timestamp { secs: (now.secs + h * 3600) as i64, nanos: now.nanos }),
            None => None,
        }
    }

    /// A lifetime of `ttl_hours` from `now` is within what `chrono` can
    /// represent: a lifetime `TimeDelta::hours` accepts, and an expiry inside
    /// the range of `DateTime<Utc>` (beyond it the addition panics).
    pub open spec fn expiry_representable(now: Timestamp, ttl_hours: Option<i64>) -> bool {
        match ttl_hours {
            None => true,
            Some(h) => -MAX_TTL_HOURS <= h <= MAX_TTL_HOURS && CHRONO_MIN_SECS <= now.secs + h * 3600
                <= CHRONO_MAX_SECS,
        }
    }

    /// A token created at `now` with the given identifier and secret.
    pub fn new_at(
        label: Option<String>,
        ttl_hours: Option<i64>,
        is_admin: bool,
        now: Timestamp,
        id: String,
        token: String,
    ) -> (t: Self)
        requires
            CHRONO_MIN_SECS <= now.secs <= CHRONO_MAX_SECS,
            Self::expiry_representable(now, ttl_hours),
        ensures
            t.id == id,
            t.token == token,
            t.created_at == now,
            t.expires_at == Self::expiry_for(now, ttl_hours),
            t.label == label,
            t.is_admin == is_admin,
    {
        let expires_at = match ttl_hours {
            Some(h) => Some(Timestamp { secs: now.secs + h * 3600, nanos: now.nanos }),
            None => None,
        };
        AccessToken { id, token, created_at: now, expires_at, label, is_admin }
    }

    /// A fresh token created now: an 8-byte random identifier and a 32-byte
    /// random secret, both URL-safe base64. None when the lifetime reaches
    /// beyond what `chrono` represents (see `expiry_representable`).
    pub fn new(label: Option<String>, ttl_hours: Option<i64>, is_admin: bool) -> (r: Option<Self>)
        ensures
            ttl_hours is None ==> r is Some,
            match r {
                Some(t) => (exists|b: Seq<u8>| b.len() == 8 && t.id@ == b64url_nopad(b))
                    && (exists|b: Seq<u8>| b.len() == 32 && t.token@ == b64url_nopad(b))
                    && 0 <= t.created_at.secs <= CHRONO_MAX_SECS
                    && Self::expiry_representable(t.created_at, ttl_hours)
                    && t.expires_at == Self::expiry_for(t.created_at, ttl_hours)
                    && t.label == label && t.is_admin == is_admin,
                None => exists|now: Timestamp|
                    0 <= now.secs <= CHRONO_MAX_SECS && !#[trigger] Self::expiry_representable(now, ttl_hours),
            },
    {
        let now = utc_now();
        match ttl_hours {
            Some(h) => {
                if h < -MAX_TTL_HOURS || h > MAX_TTL_HOURS {
                    assert(!Self::expiry_representable(now, ttl_hours));
                    return None;
                }
                let expiry = now.secs + h * 3600;
                if expiry < CHRONO_MIN_SECS || expiry > CHRONO_MAX_SECS {
                    assert(!Self::expiry_representable(now, ttl_hours));
                    return None;
                }
            },
            None => {},
        }
        let id = generate_token(8);
        let token = generate_token(32);
        Some(Self::new_at(label, ttl_hours, is_admin, now, id, token))
    }

    /// Whether the token has expired at `now`.
    pub open spec fn expired_at(&self, now: Timestamp) -> bool {
        match self.expires_at {
            Some(exp) => now.later_than(exp),
            None => false,
        }
    }

    /// Whether the token has expired at the given time.
    pub fn is_expired_at(&self, now: &Timestamp) -> (r: bool)
        ensures
            r == self.expired_at(*now),
    {
        match &self.expires_at {
            Some(exp) => now.is_after(exp),
            None => false,
        }
    }

    /// Whether the token has expired now. A token without expiry never does.
    pub fn is_expired(&self) -> (r: bool)
        ensures
            self.expires_at is None ==> !r,
            exists|now: Timestamp|
                0 <= now.secs <= CHRONO_MAX_SECS && now.nanos < 1_000_000_000 && r == #[trigger] self.expired_at(now),
    {
        let now = utc_now();
        self.is_expired_at(&now)
    }

    /// Whether the token is still valid now.
    pub fn is_valid(&self) -> (r: bool)
        ensures
            self.expires_at is None ==> r,
            exists|now: Timestamp|
                0 <= now.secs <= CHRONO_MAX_SECS && now.nanos < 1_000_000_000 && r == !#[trigger] self.expired_at(now),
    {
        !self.is_expired()
    }
}

// ---------------------------------------------------------------------------
// Invite tokens
// ---------------------------------------------------------------------------

/// The signed part of an invite: `invite:<nonce>:<expires>`.
pub open spec fn invite_payload(nonce: Seq<char>, expires: nat) -> Seq<char> {
    "invite:"@ + nonce + ":"@ + dec_spec(expires)
}

/// The signature of an invite: the hex of the HMAC-SHA256 tag of its
/// payload under `key`.
pub open spec fn invite_signature(key: Seq<u8>, nonce: Seq<char>, expires: nat) -> Seq<char> {
    hex_encode_spec(hmac_sha256_spec(key, vstd::utf8::encode_utf8(invite_payload(nonce, expires))))
}

/// The full invite for `nonce` and `expires` under `key`.
pub open spec fn invite_token_spec(key: Seq<u8>, nonce: Seq<char>, expires: nat) -> Seq<char> {
    invite_payload(nonce, expires) + "."@ + invite_signature(key, nonce, expires)
}

/// The signature part of a token: what follows its last `.`.
pub open spec fn signature_part(token: Seq<char>) -> Option<Seq<char>> {
    match last_index_of(token, '.') {
        Some(i) => Some(token.subrange(i + 1, token.len() as int)),
        None => None,
    }
}

/// The token can be checked without a panic: where it has a `.`, its
/// signature part slices cleanly into two-byte pieces (see `hex::decode`).
pub open spec fn invite_checkable(token: Seq<char>) -> bool {
    signature_part(token) matches Some(sig) ==> hex_decodable(sig)
}

/// Whether `token` can be checked (`invite_checkable`).
pub fn is_invite_checkable(token: &str) -> (r: bool)
    ensures
        r == invite_checkable(token@),
{
    let cs = chars_of(token);
    match rfind(&cs, '.') {
        None => true,
        Some(dot) => {
            let sig = string_of(&cs, dot + 1, cs.len());
            super::hex::is_hex_decodable(sig.as_str())
        },
    }
}

/// The third `:`-separated field of `p` (everything after the second `:`).
pub open spec fn third_field(p: Seq<char>) -> Option<Seq<char>> {
    match first_index_from(p, ':', 0) {
        None => None,
        Some(i) => match first_index_from(p, ':', i + 1) {
            None => None,
            Some(j) => Some(p.subrange(j + 1, p.len() as int)),
        },
    }
}

/// The expiry `now + ttl` of an invite does not fit in 64 bits.
pub open spec fn expiry_overflows(now: i64, ttl_seconds: u64) -> bool {
    (now as u64) + ttl_seconds > u64::MAX
}

/// Why an invite is refused.
#[derive(Debug, Clone, Copy, PartialEq, Eq, Structural)]
pub enum InviteRejection {
    BadFormat,
    BadSignatureEncoding,
    BadSignature,
    Expired,
}

/// The verdict on `token` under `key` at Unix time `now`.
pub open spec fn invite_verdict(key: Seq<u8>, token: Seq<char>, now: i64) -> Result<(), InviteRejection> {
    match last_index_of(token, '.') {
        None => Err(InviteRejection::BadFormat),
        Some(i) => {
            let payload = token.subrange(0, i);
            let sig = token.subrange(i + 1, token.len() as int);
            match hex_decode_outcome(sig) {
                Some(Some(tag)) => if tag != hmac_sha256_spec(
                    key,
                    vstd::utf8::encode_utf8(payload),
                ) {
                    Err(InviteRejection::BadSignature)
                } else {
                    match third_field(payload) {
                        Some(f) => match parse_u64_spec(f) {
                            Some(exp) => if (now as u64) > exp {
                                Err(InviteRejection::Expired)
                            } else {
                                Ok(())
                            },
                            None => Ok(()),
                        },
                        None => Ok(()),
                    }
                },
                _ => Err(InviteRejection::BadSignatureEncoding),
            }
        },
    }
}

/// The error each rejection is reported with.
pub open spec fn rejection_error(e: VeilError, why: InviteRejection) -> bool {
    (e is AuthFailed) && e.detail() == match why {
        InviteRejection::BadFormat => "Invalid token format"@,
        InviteRejection::BadSignatureEncoding => "Invalid token signature"@,
        InviteRejection::BadSignature => "Token signature verification failed"@,
        InviteRejection::Expired => "Token expired"@,
    }
}

/// Manages access tokens with HMAC signing for anti-tampering.
pub struct TokenManager {
    signing_key: Vec<u8>,
}

impl TokenManager {
    /// The signing key.
    pub closed spec fn key(&self) -> Seq<u8> {
        self.signing_key@
    }

    /// A manager signing with `signing_key`.
    pub fn new(signing_key: &[u8]) -> (m: Self)
        ensures
            m.key() == signing_key@,
    {
        let mut key: Vec<u8> = Vec::new();
        crate::wire::extend_range(&mut key, signing_key, 0, signing_key.len());
        assert(key@ =~= signing_key@);
        TokenManager { signing_key: key }
    }

    /// The invite with `nonce`, expiring `ttl_seconds` after Unix time `now`.
    pub fn create_invite_at(&self, now: i64, nonce: &str, ttl_seconds: u64) -> (t: String)
        requires
            (now as u64) + ttl_seconds <= u64::MAX,
        ensures
            t@ == invite_token_spec(self.key(), nonce@, ((now as u64) + ttl_seconds) as nat),
            invite_signature(self.key(), nonce@, ((now as u64) + ttl_seconds) as nat).len() == 64,
    {
        let expires: u64 = (now as u64) + ttl_seconds;
        proof {
            reveal_strlit(":");
            reveal_strlit(".");
        }
        let mut payload = String::new();
        push_str(&mut payload, "invite:");
        push_str(&mut payload, nonce);
        push_char(&mut payload, ':');
        push_decimal(&mut payload, expires);
        assert(payload@ =~= invite_payload(nonce@, expires as nat));
        let bytes = payload.as_str().as_bytes();
        let sig = hmac_sha256(self.signing_key.as_slice(), bytes);
        proof {
            super::hex::lemma_hex_encode_len(sig@);
        }
        let sig_hex = encode(sig);
        let mut token = payload;
        push_char(&mut token, '.');
        push_str(&mut token, sig_hex.as_str());
        assert(token@ =~= invite_token_spec(self.key(), nonce@, expires as nat));
        token
    }

    /// Creates a signed invite (short-lived admission token) that expires
    /// `ttl_seconds` from now, with a random 16-byte nonce. None when the
    /// expiry would overflow 64 bits.
    pub fn create_invite(&self, ttl_seconds: u64) -> (r: Option<String>)
        ensures
            match r {
                Some(t) => exists|now: i64, b: Seq<u8>|
                    #![trigger invite_token_spec(self.key(), b64url_nopad(b), ((now as u64) + ttl_seconds) as nat)]
                    0 <= now <= CHRONO_MAX_SECS && b.len() == 16 && (now as u64) + ttl_seconds <= u64::MAX
                        && invite_signature(self.key(), b64url_nopad(b), ((now as u64) + ttl_seconds) as nat).len()
                        == 64 && t@ == invite_token_spec(
                        self.key(),
                        b64url_nopad(b),
                        ((now as u64) + ttl_seconds) as nat,
                    ),
                None => exists|now: i64|
                    0 <= now <= CHRONO_MAX_SECS && #[trigger] expiry_overflows(now, ttl_seconds),
            },
    {
        let now = utc_now().secs;
        if (now as u64) > u64::MAX - ttl_seconds {
            assert(expiry_overflows(now, ttl_seconds));
            return None;
        }
        let nonce = generate_token(16);
        Some(self.create_invite_at(now, nonce.as_str(), ttl_seconds))
    }

    /// Verifies a signed invite at Unix time `now`.
    pub fn verify_invite_at(&self, token: &str, now: i64) -> (r: Result<(), VeilError>)
        requires
            invite_checkable(token@),
        ensures
            match r {
                Ok(()) => invite_verdict(self.key(), token@, now) is Ok,
                Err(e) => invite_verdict(self.key(), token@, now) matches Err(why)
                    && rejection_error(e, why),
            },
    {
        let cs = chars_of(token);
        let dot = match rfind(&cs, '.') {
            None => {
                return Err(VeilError::AuthFailed(String::from_str("Invalid token format")));
            },
            Some(i) => i,
        };
        let payload = string_of(&cs, 0, dot);
        let sig_hex = string_of(&cs, dot + 1, cs.len());
        let sig = match decode(sig_hex.as_str()) {
            Ok(s) => s,
            Err(_) => {
                return Err(VeilError::AuthFailed(String::from_str("Invalid token signature")));
            },
        };
        if !verify_hmac_sha256(self.signing_key.as_slice(), payload.as_str().as_bytes(), sig.as_slice()) {
            return Err(
                VeilError::AuthFailed(String::from_str("Token signature verification failed")),
            );
        }
        let ps = chars_of(payload.as_str());
        if let Some(i) = find_from(&ps, ':', 0) {
            if let Some(j) = find_from(&ps, ':', i + 1) {
                if let Some(exp) = parse_u64(&ps, j + 1, ps.len()) {
                    if (now as u64) > exp {
                        return Err(VeilError::AuthFailed(String::from_str("Token expired")));
                    }
                }
            }
        }
        Ok(())
    }

    /// Verifies a signed invite now.
    pub fn verify_invite(&self, token: &str) -> (r: Result<(), VeilError>)
        requires
            invite_checkable(token@),
        ensures
            exists|now: i64|
                #![trigger invite_verdict(self.key(), token@, now)]
                0 <= now <= CHRONO_MAX_SECS && match r {
                    Ok(()) => invite_verdict(self.key(), token@, now) is Ok,
                    Err(e) => invite_verdict(self.key(), token@, now) matches Err(why)
                        && rejection_error(e, why),
                },
    {
        let now = utc_now().secs;
        self.verify_invite_at(token, now)
    }
}

} // verus!

verus! {

/// `c` does not occur in `s`.
pub open spec fn lacks(s: Seq<char>, c: char) -> bool {
    forall|i: int| 0 <= i < s.len() ==> s[i] != c
}

proof fn lemma_last_index_at(s: Seq<char>, c: char, p: int)
    requires
        0 <= p < s.len(),
        s[p] == c,
        forall|j: int| p < j < s.len() ==> s[j] != c,
    ensures
        last_index_of(s, c) == Some(p),
{
    reveal(last_index_of);
    let w = choose|i: int| 0 <= i < s.len() && s[i] == c && forall|j: int| i < j < s.len() ==> s[j] != c;
    assert(w == p) by {
        if w < p {
            assert(s[p] != c);
        }
        if w > p {
            assert(s[w] != c);
        }
    }
}

proof fn lemma_first_index_at(s: Seq<char>, c: char, from: int, p: int)
    requires
        from <= p < s.len(),
        s[p] == c,
        forall|j: int| from <= j < p ==> s[j] != c,
    ensures
        first_index_from(s, c, from) == Some(p),
{
    reveal(first_index_from);
    let w = choose|i: int| from <= i < s.len() && s[i] == c && forall|j: int| from <= j < i ==> s[j] != c;
    assert(w == p) by {
        if w < p {
        }
        if w > p {
            assert(s[p] != c);
        }
    }
}

/// The payload of an invite has its expiry as third `:`-field when the
/// nonce has no `:`.
proof fn lemma_payload_third_field(nonce: Seq<char>, expires: nat)
    requires
        lacks(nonce, ':'),
    ensures
        third_field(invite_payload(nonce, expires)) == Some(dec_spec(expires)),
{
    reveal_strlit("invite:");
    reveal_strlit(":");
    let p = invite_payload(nonce, expires);
    let k: int = 7 + nonce.len() as int;
    assert(p[6] == ':');
    assert forall|j: int| 0 <= j < 6 implies p[j] != ':' by {
        assert(p[j] == "invite:"@[j]);
    }
    lemma_first_index_at(p, ':', 0, 6);
    assert(p[k] == ':');
    assert forall|j: int| 7 <= j < k implies p[j] != ':' by {
        assert(p[j] == nonce[j - 7]);
    }
    lemma_first_index_at(p, ':', 7, k);
    assert(p.subrange(k + 1, p.len() as int) =~= dec_spec(expires));
}

/// Time only ever expires an invite: a refusal other than expiry does not
/// depend on the instant, an invite refused as expired stays refused at
/// every later instant, and one accepted is accepted at every earlier one.
pub proof fn lemma_invite_expiry_is_permanent(key: Seq<u8>, token: Seq<char>, t1: i64, t2: i64)
    requires
        0 <= t1 <= t2,
    ensures
        invite_verdict(key, token, t1) == Err::<(), InviteRejection>(InviteRejection::Expired)
            ==> invite_verdict(key, token, t2) == Err::<(), InviteRejection>(InviteRejection::Expired),
        invite_verdict(key, token, t2) is Ok ==> invite_verdict(key, token, t1) is Ok,
        invite_verdict(key, token, t1) != invite_verdict(key, token, t2) ==> (invite_verdict(key, token, t1) is Ok
            && invite_verdict(key, token, t2) == Err::<(), InviteRejection>(InviteRejection::Expired)),
{
}

/// What `create_invite_at` issues passes `verify_invite_at`, at any time up
/// to and including its expiry, and is refused as expired after it; it can
/// always be checked without a panic. The nonce must not contain `:`, which
/// holds for the random base64 nonces that `create_invite` draws.
pub proof fn lemma_invite_roundtrip(key: Seq<u8>, nonce: Seq<char>, expires: u64, now: i64)
    requires
        lacks(nonce, ':'),
    ensures
        invite_checkable(invite_token_spec(key, nonce, expires as nat)),
        invite_verdict(key, invite_token_spec(key, nonce, expires as nat), now) == if (now as u64)
            > expires {
            Err::<(), InviteRejection>(InviteRejection::Expired)
        } else {
            Ok(())
        },
{
    reveal_strlit(".");
    let payload = invite_payload(nonce, expires as nat);
    let tag = hmac_sha256_spec(key, vstd::utf8::encode_utf8(payload));
    let h = hex_encode_spec(tag);
    let t = invite_token_spec(key, nonce, expires as nat);
    let p = payload.len() as int;
    assert(t =~= payload + seq!['.'] + h);
    super::hex::lemma_hex_encode_chars(tag);
    assert(t[p] == '.');
    assert forall|j: int| p < j < t.len() implies t[j] != '.' by {
        assert(t[j] == h[j - p - 1]);
        assert(super::hex::is_lower_hex_char(h[j - p - 1]));
    }
    lemma_last_index_at(t, '.', p);
    assert(t.subrange(0, p) =~= payload);
    assert(t.subrange(p + 1, t.len() as int) =~= h);
    lemma_hex_roundtrip(tag);
    lemma_payload_third_field(nonce, expires as nat);
    crate::text::lemma_dec_parse(expires);
    lemma_verdict_of_parts(key, t, p, tag, dec_spec(expires as nat), expires, now);
}

proof fn lemma_verdict_of_parts(key: Seq<u8>, t: Seq<char>, i: int, tag: Seq<u8>, f: Seq<char>, exp: u64, now: i64)
    requires
        last_index_of(t, '.') == Some(i),
        hex_decode_outcome(t.subrange(i + 1, t.len() as int)) == Some(Some(tag)),
        tag == hmac_sha256_spec(key, vstd::utf8::encode_utf8(t.subrange(0, i))),
        third_field(t.subrange(0, i)) == Some(f),
        parse_u64_spec(f) == Some(exp),
    ensures
        invite_checkable(t),
        invite_verdict(key, t, now) == if (now as u64) > exp {
            Err::<(), InviteRejection>(InviteRejection::Expired)
        } else {
            Ok(())
        },
{
}

/// The random nonces of `create_invite` never contain `:`.
pub proof fn lemma_b64_nonce_lacks_colon(b: Seq<u8>)
    ensures
        lacks(b64url_nopad(b), ':'),
{
    lemma_b64url_alphabet(b);
    assert forall|i: int| 0 <= i < b64url_nopad(b).len() implies b64url_nopad(b)[i] != ':' by {
        assert(is_b64url_char(b64url_nopad(b)[i]));
    }
}

/// An accepted invite carries the HMAC of its payload under the key: its
/// signature part decodes to the tag of everything before the last `.`.
pub proof fn lemma_accepted_invite_is_signed(key: Seq<u8>, token: Seq<char>, now: i64)
    requires
        invite_verdict(key, token, now) is Ok,
    ensures
        last_index_of(token, '.') matches Some(i) && hex_decode_outcome(
            token.subrange(i + 1, token.len() as int),
        ) == Some(Some(hmac_sha256_spec(key, vstd::utf8::encode_utf8(token.subrange(0, i))))),
{
}

} // verus!
