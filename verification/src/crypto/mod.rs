//! Cryptographic primitives, all from `ring` and `base64`: random bytes,
//! tokens, HMAC-SHA256, SHA-256 and AES-256-GCM.
use vstd::prelude::*;

use base64::Engine;
use ring::rand::SecureRandom;

use crate::error::VeilError;

pub mod hex;
pub mod token;

verus! {

// ---------------------------------------------------------------------------
// Random tokens
// ---------------------------------------------------------------------------

/// `len` bytes from the system's secure random generator
/// (`ring::rand::SystemRandom::fill`). Only the length is determined.
#[verifier::external_body]
pub fn random_bytes(len: usize) -> (v: Vec<u8>)
    ensures
        v@.len() == len,
{
    let rng = ring::rand::SystemRandom::new();
    let mut buf = vec![0u8; len];
    rng.fill(&mut buf).expect("RNG failure");
    buf
}

/// The character of a 6-bit value in the URL-safe base64 alphabet
/// (RFC 4648, section 5).
pub open spec fn b64url_char(v: nat) -> char {
    if v < 26 {
        (65 + v) as char
    } else if v < 52 {
        (97 + (v - 26)) as char
    } else if v < 62 {
        (48 + (v - 52)) as char
    } else if v == 62 {
        '-'
    } else {
        '_'
    }
}

/// URL-safe base64 of `b` without padding: each three bytes give four
/// characters; a final two bytes give three, a final byte two.
pub open spec fn b64url_nopad(b: Seq<u8>) -> Seq<char>
    decreases b.len(),
{
    if b.len() == 0 {
        seq![]
    } else if b.len() == 1 {
        seq![b64url_char((b[0] / 4) as nat), b64url_char(((b[0] % 4) * 16) as nat)]
    } else if b.len() == 2 {
        seq![
            b64url_char((b[0] / 4) as nat),
            b64url_char(((b[0] % 4) * 16 + b[1] / 16) as nat),
            b64url_char(((b[1] % 16) * 4) as nat),
        ]
    } else {
        seq![
            b64url_char((b[0] / 4) as nat),
            b64url_char(((b[0] % 4) * 16 + b[1] / 16) as nat),
            b64url_char(((b[1] % 16) * 4 + b[2] / 64) as nat),
            b64url_char((b[2] % 64) as nat),
        ] + b64url_nopad(b.skip(3))
    }
}

/// Encodes bytes as URL-safe base64 without padding
/// (`base64::engine::general_purpose::URL_SAFE_NO_PAD.encode`).
#[verifier::external_body]
fn base64_url_nopad(bytes: &[u8]) -> (s: String)
    ensures
        s@ == b64url_nopad(bytes@),
{
    base64::engine::general_purpose::URL_SAFE_NO_PAD.encode(bytes)
}

/// A URL-safe base64 token (no padding) of `byte_len` random bytes.
pub fn generate_token(byte_len: usize) -> (s: String)
    ensures
        exists|b: Seq<u8>| b.len() == byte_len && s@ == b64url_nopad(b),
{
    let bytes = random_bytes(byte_len);
    base64_url_nopad(bytes.as_slice())
}

/// The URL-safe base64 alphabet: letters, digits, `-` and `_`.
pub open spec fn is_b64url_char(c: char) -> bool {
    ('A' <= c <= 'Z') || ('a' <= c <= 'z') || ('0' <= c <= '9') || c == '-' || c == '_'
}

/// Every character of URL-safe base64 is in its alphabet.
pub proof fn lemma_b64url_alphabet(b: Seq<u8>)
    ensures
        forall|i: int| 0 <= i < b64url_nopad(b).len() ==> is_b64url_char(#[trigger] b64url_nopad(b)[i]),
    decreases b.len(),
{
    if b.len() >= 3 {
        lemma_b64url_alphabet(b.skip(3));
        let head = seq![
            b64url_char((b[0] / 4) as nat),
            b64url_char(((b[0] % 4) * 16 + b[1] / 16) as nat),
            b64url_char(((b[1] % 16) * 4 + b[2] / 64) as nat),
            b64url_char((b[2] % 64) as nat),
        ];
        assert forall|i: int| 0 <= i < b64url_nopad(b).len() implies is_b64url_char(
            #[trigger] b64url_nopad(b)[i],
        ) by {
            if i >= 4 {
                assert(b64url_nopad(b)[i] == b64url_nopad(b.skip(3))[i - 4]);
            }
        }
    }
}

// ---------------------------------------------------------------------------
// HMAC-SHA256 and SHA-256
// ---------------------------------------------------------------------------

/// HMAC-SHA256 of `data` under `key`.
pub uninterp spec fn hmac_sha256_spec(key: Seq<u8>, data: Seq<u8>) -> Seq<u8>;

/// The SHA-256 digest (FIPS 180-4) of `data`: one mathematical function,
/// computed here by `ring::digest` and by the `sha2` crate alike.
pub uninterp spec fn sha256_spec(data: Seq<u8>) -> Seq<u8>;

/// HMAC-SHA256 for challenge/response auth (`ring::hmac::sign`); the tag
/// is 32 bytes.
#[verifier::external_body]
pub fn hmac_sha256(key: &[u8], data: &[u8]) -> (tag: Vec<u8>)
    ensures
        tag@ == hmac_sha256_spec(key@, data@),
        tag@.len() == 32,
{
    let key = ring::hmac::Key::new(ring::hmac::HMAC_SHA256, key);
    ring::hmac::sign(&key, data).as_ref().to_vec()
}

/// Verifies an HMAC-SHA256 tag (`ring::hmac::verify`): true exactly when
/// `expected` is the tag of `data` under `key`.
#[verifier::external_body]
pub fn verify_hmac_sha256(key: &[u8], data: &[u8], expected: &[u8]) -> (ok: bool)
    ensures
        ok == (expected@ == hmac_sha256_spec(key@, data@)),
{
    let key = ring::hmac::Key::new(ring::hmac::HMAC_SHA256, key);
    ring::hmac::verify(&key, data, expected).is_ok()
}

/// SHA-256 digest (`ring::digest::digest`); 32 bytes.
#[verifier::external_body]
pub fn sha256(data: &[u8]) -> (d: Vec<u8>)
    ensures
        d@ == sha256_spec(data@),
        d@.len() == 32,
{
    ring::digest::digest(&ring::digest::SHA256, data).as_ref().to_vec()
}

// ---------------------------------------------------------------------------
// AES-256-GCM
// ---------------------------------------------------------------------------

/// `ring`'s error value, carried opaque.
#[verifier::external_type_specification]
#[verifier::external_body]
pub struct ExUnspecified(ring::error::Unspecified);

/// AES-256-GCM sealing of `plaintext` under `key`, `nonce` and `aad`:
/// ciphertext followed by the 16-byte tag.
pub uninterp spec fn aes256gcm_seal(key: Seq<u8>, nonce: Seq<u8>, aad: Seq<u8>, plaintext: Seq<u8>) -> Seq<u8>;

/// AES-256-GCM opening of `ciphertext`: the plaintext when the tag
/// authenticates, none otherwise.
pub uninterp spec fn aes256gcm_open(key: Seq<u8>, nonce: Seq<u8>, aad: Seq<u8>, ciphertext: Seq<u8>) -> Option<Seq<u8>>;

/// Largest input AES-GCM accepts in `ring` (on 64-bit targets).
pub const AES_GCM_MAX_INPUT: u64 = 68_719_476_704;

/// Checks an AES-256-GCM key (`ring::aead::UnboundKey::new`); fails
/// exactly when the key is not 32 bytes.
#[verifier::external_body]
fn aes256gcm_key(key_bytes: &[u8]) -> (r: Result<(), ring::error::Unspecified>)
    ensures
        r is Ok <==> key_bytes@.len() == 32,
{
    ring::aead::UnboundKey::new(&ring::aead::AES_256_GCM, key_bytes).map(|_| ())
}

/// AEAD encryption using AES-256-GCM.
pub struct AeadCipher {
    key_bytes: Vec<u8>,
}

/// Seals under the 32-byte `key` (`UnboundKey::new`, `LessSafeKey::new`,
/// then `seal_in_place_append_tag` on a copy of `plaintext`): the result is
/// the sealed text, 16 bytes longer; it fails only for inputs longer than
/// `ring` accepts.
#[verifier::external_body]
fn aes256gcm_seal_with(key: &[u8], nonce: &[u8; 12], aad: &[u8], plaintext: &[u8]) -> (r: Result<Vec<u8>, ring::error::Unspecified>)
    requires
        key@.len() == 32,
    ensures
        r matches Ok(c) ==> c@ == aes256gcm_seal(key@, nonce@, aad@, plaintext@),
        r matches Ok(c) ==> c@.len() == plaintext@.len() + 16,
        plaintext@.len() <= AES_GCM_MAX_INPUT ==> r is Ok,
{
    let key = ring::aead::LessSafeKey::new(ring::aead::UnboundKey::new(&ring::aead::AES_256_GCM, key)?);
    let nonce = ring::aead::Nonce::assume_unique_for_key(*nonce);
    let mut in_out = plaintext.to_vec();
    key.seal_in_place_append_tag(nonce, ring::aead::Aad::from(aad), &mut in_out).map(|_| in_out)
}

/// Opens under the 32-byte `key` (`UnboundKey::new`, `LessSafeKey::new`,
/// then `open_in_place` on a copy of `ciphertext`): succeeds exactly when
/// the tag authenticates; what sealing produced opens to the sealed
/// plaintext.
#[verifier::external_body]
fn aes256gcm_open_with(key: &[u8], nonce: &[u8; 12], aad: &[u8], ciphertext: &[u8]) -> (r: Result<Vec<u8>, ring::error::Unspecified>)
    requires
        key@.len() == 32,
    ensures
        match r {
            Ok(p) => aes256gcm_open(key@, nonce@, aad@, ciphertext@) == Some(p@),
            Err(_) => aes256gcm_open(key@, nonce@, aad@, ciphertext@) is None,
        },
        forall|p: Seq<u8>| #![trigger aes256gcm_seal(key@, nonce@, aad@, p)]
            ciphertext@ == aes256gcm_seal(key@, nonce@, aad@, p) ==> (r is Ok && r->Ok_0@ == p),
{
    let key = ring::aead::LessSafeKey::new(ring::aead::UnboundKey::new(&ring::aead::AES_256_GCM, key)?);
    let nonce = ring::aead::Nonce::assume_unique_for_key(*nonce);
    let mut in_out = ciphertext.to_vec();
    key.open_in_place(nonce, ring::aead::Aad::from(aad), &mut in_out).map(|p| p.to_vec())
}

impl AeadCipher {
    /// The key this cipher was made with.
    pub closed spec fn key_spec(&self) -> Seq<u8> {
        self.key_bytes@
    }

    /// The key is 32 bytes long.
    #[verifier::type_invariant]
    closed spec fn key_len_ok(&self) -> bool {
        self.key_bytes@.len() == 32
    }

    /// A cipher for a 32-byte key; any other length is a crypto error.
    pub fn new(key_bytes: &[u8]) -> (r: Result<Self, VeilError>)
        ensures
            match r {
                Ok(c) => key_bytes@.len() == 32 && c.key_spec() == key_bytes@,
                Err(e) => key_bytes@.len() != 32 && (e is Crypto) && e.detail() == "Invalid key length"@,
            },
    {
        match aes256gcm_key(key_bytes) {
            Ok(()) => {
                let mut key: Vec<u8> = Vec::new();
                crate::wire::extend_range(&mut key, key_bytes, 0, key_bytes.len());
                assert(key@ =~= key_bytes@);
                Ok(AeadCipher { key_bytes: key })
            },
            Err(_) => Err(VeilError::Crypto(String::from_str("Invalid key length"))),
        }
    }

    /// Encrypts and authenticates `plaintext`; the result is the ciphertext
    /// followed by the tag.
    pub fn encrypt(&self, nonce_bytes: &[u8; 12], aad: &[u8], plaintext: &[u8]) -> (r: Result<Vec<u8>, VeilError>)
        ensures
            match r {
                Ok(c) => c@ == aes256gcm_seal(self.key_spec(), nonce_bytes@, aad@, plaintext@)
                    && c@.len() == plaintext@.len() + 16,
                Err(e) => plaintext@.len() > AES_GCM_MAX_INPUT && (e is Crypto) && e.detail() == "Encryption failed"@,
            },
    {
        proof {
            use_type_invariant(self);
        }
        match aes256gcm_seal_with(self.key_bytes.as_slice(), nonce_bytes, aad, plaintext) {
            Ok(c) => Ok(c),
            Err(_) => Err(VeilError::Crypto(String::from_str("Encryption failed"))),
        }
    }

    /// Decrypts and authenticates `ciphertext`; a failed tag check is a
    /// crypto error.
    pub fn decrypt(&self, nonce_bytes: &[u8; 12], aad: &[u8], ciphertext: &[u8]) -> (r: Result<Vec<u8>, VeilError>)
        ensures
            match r {
                Ok(p) => aes256gcm_open(self.key_spec(), nonce_bytes@, aad@, ciphertext@) == Some(p@),
                Err(e) => aes256gcm_open(self.key_spec(), nonce_bytes@, aad@, ciphertext@) is None
                    && (e is Crypto) && e.detail() == "Decryption failed / authentication tag mismatch"@,
            },
            forall|p: Seq<u8>|
                ciphertext@ == #[trigger] aes256gcm_seal(self.key_spec(), nonce_bytes@, aad@, p) ==> (r is Ok
                    && r->Ok_0@ == p),
    {
        proof {
            use_type_invariant(self);
        }
        match aes256gcm_open_with(self.key_bytes.as_slice(), nonce_bytes, aad, ciphertext) {
            Ok(p) => Ok(p),
            Err(_) => Err(
                VeilError::Crypto(String::from_str("Decryption failed / authentication tag mismatch")),
            ),
        }
    }
}

} // verus!
