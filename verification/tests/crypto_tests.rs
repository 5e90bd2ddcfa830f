use veil::crypto::hex::{decode, encode, is_hex_decodable};
use veil::crypto::token::{is_invite_checkable, AccessToken, TokenManager};
use veil::crypto::{generate_token, hmac_sha256, random_bytes, sha256, verify_hmac_sha256, AeadCipher};
use veil::error::VeilError;
use veil::time::Timestamp;

fn auth_detail(e: VeilError) -> String {
    match e {
        VeilError::AuthFailed(m) => m,
        other => panic!("unexpected error {:?}", other),
    }
}

#[test]
fn hex_encode_lowercase() {
    assert_eq!(encode(vec![0xde, 0xad, 0x00, 0x0f]), "dead000f");
    assert_eq!(encode(vec![]), "");
}

#[test]
fn hex_decode_cases() {
    assert_eq!(decode("DEADbeef").unwrap(), vec![0xde, 0xad, 0xbe, 0xef]);
    assert_eq!(decode("").unwrap(), Vec::<u8>::new());
    assert!(decode("+f").is_err());
    assert!(decode("+a").is_err());
    assert_eq!(decode("0F").unwrap(), vec![0x0f]);
    assert!(decode("abc").is_err());
    assert!(decode("zz").is_err());
    assert!(decode("-1").is_err());
    assert!(decode("é").is_err());
}

#[test]
fn hex_decodability() {
    assert!(is_hex_decodable("DEADbeef"));
    assert!(is_hex_decodable("abc"));
    assert!(is_hex_decodable("zz"));
    assert!(is_hex_decodable("é"));
    assert!(is_hex_decodable("éa"));
    assert!(!is_hex_decodable("aéb"));
    assert!(!is_hex_decodable("日本"));
    assert!(is_invite_checkable("no-dot-at-all"));
    assert!(is_invite_checkable("payload.00ff"));
    assert!(!is_invite_checkable("payload.aéb"));
}

#[test]
fn hex_roundtrip() {
    let b = random_bytes(40);
    assert_eq!(decode(&encode(b.clone())).unwrap(), b);
}

#[test]
fn sha256_known_vector() {
    assert_eq!(
        encode(sha256(b"abc")),
        "ba7816bf8f01cfea414140de5dae2223b00361a396177a9cb410ff61f20015ad"
    );
}

#[test]
fn hmac_known_vector() {
    let tag = hmac_sha256(b"Jefe", b"what do ya want for nothing?");
    assert_eq!(
        encode(tag.clone()),
        "5bdcc146bf60754e6a042426089575c75a003f089d2739839dec58b964ec3843"
    );
    assert!(verify_hmac_sha256(b"Jefe", b"what do ya want for nothing?", &tag));
    assert!(!verify_hmac_sha256(b"Jeff", b"what do ya want for nothing?", &tag));
}

#[test]
fn generated_tokens_are_url_safe_base64() {
    let t = generate_token(32);
    assert_eq!(t.len(), 43);
    assert!(t.chars().all(|c| c.is_ascii_alphanumeric() || c == '-' || c == '_'));
    assert_eq!(generate_token(16).len(), 22);
    assert_eq!(random_bytes(7).len(), 7);
}

#[test]
fn aead_roundtrip_and_tamper() {
    let key = [7u8; 32];
    let c = AeadCipher::new(&key).unwrap();
    let nonce = [1u8; 12];
    let ct = c.encrypt(&nonce, b"aad", b"hello world").unwrap();
    assert_eq!(ct.len(), 11 + 16);
    assert_eq!(c.decrypt(&nonce, b"aad", &ct).unwrap(), b"hello world".to_vec());
    let mut bad = ct.clone();
    bad[0] ^= 1;
    match c.decrypt(&nonce, b"aad", &bad) {
        Err(VeilError::Crypto(m)) => assert_eq!(m, "Decryption failed / authentication tag mismatch"),
        _ => panic!("tampered ciphertext accepted"),
    }
    assert!(c.decrypt(&nonce, b"other", &ct).is_err());
}

#[test]
fn aead_key_length() {
    match AeadCipher::new(&[0u8; 16]) {
        Err(VeilError::Crypto(m)) => assert_eq!(m, "Invalid key length"),
        _ => panic!("short key accepted"),
    }
}

#[test]
fn invite_created_then_verified() {
    let m = TokenManager::new(b"signing key");
    let now = 1_700_000_000i64;
    let t = m.create_invite_at(now, "nonce123", 3600);
    assert!(t.starts_with("invite:nonce123:1700003600."));
    assert_eq!(t.len(), "invite:nonce123:1700003600.".len() + 64);
    assert!(m.verify_invite_at(&t, now).is_ok());
    assert!(m.verify_invite_at(&t, now + 3600).is_ok());
    assert_eq!(auth_detail(m.verify_invite_at(&t, now + 3601).unwrap_err()), "Token expired");
}

#[test]
fn invite_rejections() {
    let m = TokenManager::new(b"k");
    let other = TokenManager::new(b"other");
    let t = m.create_invite_at(100, "n", 10);
    assert_eq!(
        auth_detail(other.verify_invite_at(&t, 100).unwrap_err()),
        "Token signature verification failed"
    );
    assert_eq!(auth_detail(m.verify_invite_at("no-dot-here", 0).unwrap_err()), "Invalid token format");
    assert_eq!(auth_detail(m.verify_invite_at("invite:a:1.zz", 0).unwrap_err()), "Invalid token signature");
    let forged = t.replace("invite:n:110", "invite:n:999");
    assert!(m.verify_invite_at(&forged, 100).is_err());
}

#[test]
fn invite_now_is_fresh() {
    let m = TokenManager::new(&[9u8; 32]);
    let t = m.create_invite(3600).unwrap();
    assert!(t.starts_with("invite:"));
    assert!(m.verify_invite(&t).is_ok());
    assert!(m.create_invite(u64::MAX).is_none());
}

#[test]
fn access_token_expiry() {
    let t = AccessToken::new(Some("label".into()), Some(1), false).unwrap();
    assert!(!t.is_expired());
    assert!(t.is_valid());
    assert_eq!(t.token.len(), 43);
    assert_eq!(t.id.len(), 11);
    assert_eq!(t.expires_at.unwrap().secs, t.created_at.secs + 3600);
    let old = AccessToken::new(None, Some(-1), true).unwrap();
    assert!(old.is_expired());
    let forever = AccessToken::new(None, None, false).unwrap();
    assert!(forever.is_valid());
    assert!(AccessToken::new(None, Some(2_562_047_788_016), false).is_none());
    assert!(AccessToken::new(None, Some(2_300_000_000), false).is_none());
    assert!(AccessToken::new(None, Some(-2_400_000_000), false).is_none());
    assert!(AccessToken::new(None, Some(2_000_000_000), false).is_some());
    let now = Timestamp { secs: 10, nanos: 0 };
    let x = AccessToken::new_at(None, Some(2), false, now, "i".into(), "t".into());
    assert!(!x.is_expired_at(&Timestamp { secs: 7210, nanos: 0 }));
    assert!(x.is_expired_at(&Timestamp { secs: 7210, nanos: 1 }));
}
