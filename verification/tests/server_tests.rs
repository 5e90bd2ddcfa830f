use veil::crypto::hex::encode;
use veil::crypto::sha256;
use veil::error::{Failure, VeilError};
use veil::protocol::frame::{ChannelId, Frame, FrameType};
use veil::protocol::handshake::{AuthMethod, AuthRequest};
use veil::protocol::session::SessionState;
use veil::protocol::NodeRole;
use veil::server::admin::admin_authorized;
use veil::server::auth::AuthManager;
use veil::server::config::{
    default_alpn, AdminConfig, AuthConfig, ListenConfig, LimitsConfig, LoggingConfig, NodeConfig,
    ObfuscationConfig, RelayConfig, ServerConfig, TlsConfig, TokenEntry,
};
use veil::server::obfuscation::ObfuscationLayer;
use veil::server::policy::{parse_cidr, parse_ipv4, rule_admits_host};
use veil::server::relay::{
    is_destination_allowed, stream_header, tcp_frame_action, tcp_relay_target, RelayAction, TcpRelay,
};
use veil::time::Timestamp;

fn token_entry(id: &str, token: &str, expires: Option<&str>) -> TokenEntry {
    TokenEntry {
        id: id.into(),
        token_hash: encode(sha256(token.as_bytes())),
        label: None,
        is_admin: false,
        expires_at: expires.map(|s| s.to_string()),
    }
}

fn auth_config(tokens: Vec<TokenEntry>) -> AuthConfig {
    AuthConfig {
        signing_key: "00112233445566778899aabbccddeeff".into(),
        tokens,
        invite_ttl_seconds: 3600,
        rate_limit: true,
        tarpit_ms: 500,
    }
}

fn server_config() -> ServerConfig {
    ServerConfig {
        node: NodeConfig { role: NodeRole::All, name: None, allowed_destinations: vec![] },
        listen: ListenConfig::default(),
        tls: TlsConfig {
            cert_path: "/etc/veil/server.crt".into(),
            key_path: "/etc/veil/server.key".into(),
            sni: None,
            alpn: default_alpn(),
            key_rotation_hours: None,
        },
        auth: auth_config(vec![]),
        relay: RelayConfig::default(),
        limits: LimitsConfig::default(),
        logging: LoggingConfig::default(),
        admin: AdminConfig { admin_token: "admintok".into(), ..AdminConfig::default() },
        obfuscation: ObfuscationConfig::default(),
    }
}

fn config_detail(e: VeilError) -> String {
    match e {
        VeilError::Config(m) => m,
        other => panic!("unexpected error {:?}", other),
    }
}

#[test]
fn defaults() {
    let l = ListenConfig::default();
    assert_eq!(l.bind, "0.0.0.0");
    assert_eq!((l.quic_port, l.tcp_port), (443, 443));
    assert_eq!(l.extra_ports, vec![8443, 2053]);
    assert_eq!(default_alpn(), vec!["h3", "h2", "http/1.1"]);
    assert_eq!(RelayConfig::default().max_streams_per_session, 256);
    assert_eq!(LimitsConfig::default().max_sessions, 1000);
    assert_eq!(LoggingConfig::default().level, "warn");
    let a = AdminConfig::default();
    assert!(a.enabled && a.port == 9090 && a.bind == "127.0.0.1" && a.admin_token.is_empty());
    let o = ObfuscationConfig::default();
    assert!(o.padding_enabled && o.size_normalization && !o.idle_noise && o.burst_shaping);
}

#[test]
fn validate_reports_first_missing_setting() {
    let mut c = server_config();
    c.auth.signing_key = "aa".into();
    assert!(c.validate().is_ok());
    c.admin.admin_token = String::new();
    assert_eq!(
        config_detail(c.validate().unwrap_err()),
        "admin.admin_token must be set when admin API is enabled"
    );
    c.admin.enabled = false;
    assert!(c.validate().is_ok());
    c.auth.signing_key = String::new();
    assert_eq!(config_detail(c.validate().unwrap_err()), "auth.signing_key must be set");
    c.tls.key_path = String::new();
    assert_eq!(config_detail(c.validate().unwrap_err()), "TLS cert and key paths must be set");
}

#[test]
fn signing_key_errors() {
    let mut c = auth_config(vec![]);
    c.signing_key = "abc".into();
    assert_eq!(AuthManager::new(&c).err().unwrap().message(), "odd hex string length");
    c.signing_key = "zz".into();
    assert_eq!(
        AuthManager::new(&c).err().unwrap().message(),
        "invalid hex: invalid digit found in string"
    );
    c.signing_key = "+a".into();
    assert_eq!(
        AuthManager::new(&c).err().unwrap().message(),
        "invalid hex: invalid digit found in string"
    );
    c.signing_key = "0aFf".into();
    assert!(AuthManager::new(&c).is_ok());
}

#[test]
fn valid_token_opens_session() {
    let mut m = AuthManager::new(&auth_config(vec![token_entry("u1", "secret", None)])).unwrap();
    let (r, delay) = m.verify_token("secret");
    let s = r.unwrap();
    assert_eq!(delay, 0);
    assert_eq!(s.state, SessionState::Active);
    assert_eq!(m.active_session_count(), 1);
    assert_eq!(m.get_session(&s.id).unwrap().id, s.id);
    m.remove_session(&s.id);
    assert_eq!(m.active_session_count(), 0);
    assert!(m.get_session(&s.id).is_none());
}

#[test]
fn unknown_token_is_tarpitted() {
    let mut m = AuthManager::new(&auth_config(vec![token_entry("u1", "secret", None)])).unwrap();
    let (r, delay) = m.verify_token("wrong");
    match r {
        Err(Failure::Veil(VeilError::AuthFailed(msg))) => assert_eq!(msg, "Invalid token"),
        _ => panic!("unknown token accepted"),
    }
    assert_eq!(delay, 500);
    assert_eq!(m.active_session_count(), 0);
}

#[test]
fn token_expiry_checks() {
    let mut m = AuthManager::new(&auth_config(vec![
        token_entry("old", "a", Some("2000-01-01T00:00:00Z")),
        token_entry("bad", "b", Some("not a date")),
        token_entry("new", "c", Some("2999-01-01T00:00:00Z")),
    ]))
    .unwrap();
    let now = Timestamp { secs: 1_700_000_000, nanos: 0 };
    match m.verify_token_at("a", now, "s1".into()).0 {
        Err(Failure::Veil(VeilError::AuthFailed(msg))) => assert_eq!(msg, "Token expired"),
        _ => panic!("expired token accepted"),
    }
    assert_eq!(
        m.verify_token_at("a", now, "s0".into()).0.err().unwrap().message(),
        "Authentication failed: Token expired"
    );
    assert_eq!(
        m.verify_token_at("b", now, "s0".into()).0.err().unwrap().message(),
        "Invalid expiry date"
    );
    match m.verify_token_at("b", now, "s2".into()).0 {
        Err(Failure::Message(msg)) => assert_eq!(msg, "Invalid expiry date"),
        _ => panic!("bad date accepted"),
    }
    let s = m.verify_token_at("c", now, "s3".into()).0.unwrap();
    assert_eq!(s.id, "s3");
    assert_eq!(s.created_at, now);
    assert_eq!(m.active_session_count(), 1);
}

#[test]
fn later_duplicate_hash_wins() {
    let m = AuthManager::new(&auth_config(vec![
        token_entry("first", "same", Some("2000-01-01T00:00:00Z")),
        token_entry("second", "same", None),
    ]))
    .unwrap();
    let h = encode(sha256(b"same"));
    assert_eq!(m.find_token(&h), Some(1));
}

#[test]
fn authenticate_dispatch() {
    let mut m = AuthManager::new(&auth_config(vec![token_entry("u1", "tok", None)])).unwrap();
    let req = |method: AuthMethod, cred: &str| AuthRequest {
        challenge_id: "init".into(),
        method,
        credential: cred.into(),
        client_pubkey: None,
    };
    assert!(m.authenticate(&req(AuthMethod::Token, "tok")).0.is_ok());
    match m.authenticate(&req(AuthMethod::PreSharedKey, "x")).0 {
        Err(Failure::Message(msg)) => assert_eq!(msg, "PSK auth not configured"),
        _ => panic!(),
    }
    match m.authenticate(&req(AuthMethod::Certificate, "x")).0 {
        Err(Failure::Message(msg)) => assert_eq!(msg, "Certificate auth not yet implemented"),
        _ => panic!(),
    }
}

#[test]
fn generated_invite_verifies() {
    let m = AuthManager::new(&auth_config(vec![])).unwrap();
    let inv = m.generate_invite(60).unwrap();
    let tm = veil::crypto::token::TokenManager::new(&[0x00, 0x11, 0x22, 0x33, 0x44, 0x55, 0x66, 0x77, 0x88, 0x99, 0xaa, 0xbb, 0xcc, 0xdd, 0xee, 0xff]);
    assert!(tm.verify_invite(&inv).is_ok());
}

#[test]
fn normalization_pads_to_common_size() {
    let layer = ObfuscationLayer::new(true, true);
    let out = layer.wrap_outgoing(Frame::ping());
    assert_eq!(out.len(), 576);
    assert_eq!(&out[..10], &Frame::ping().encode()[..]);
    let first = Frame::decode(&out).unwrap();
    assert_eq!(first.frame_type, FrameType::Ping);
    let pad = Frame::decode(&out[10..]).unwrap();
    assert_eq!(pad.frame_type, FrameType::Padding);
    assert_eq!(pad.payload.len(), 556);
    // 570 bytes leave no room for a padding frame below 576: the next size.
    let f = Frame::new(FrameType::StreamData, ChannelId(1000), vec![1; 560]);
    assert_eq!(layer.wrap_outgoing(f).len(), 1024);
}

#[test]
fn exact_common_size_is_left_alone() {
    let layer = ObfuscationLayer::new(false, true);
    let f = Frame::new(FrameType::StreamData, ChannelId(1000), vec![1; 1014]);
    assert_eq!(layer.wrap_outgoing(f).len(), 1024);
    let big = Frame::new(FrameType::StreamData, ChannelId(1000), vec![1; 9000]);
    assert_eq!(layer.wrap_outgoing(big).len(), 9010);
}

#[test]
fn random_padding_keeps_frame_first() {
    let layer = ObfuscationLayer::new(true, false);
    for _ in 0..20 {
        let out = layer.wrap_outgoing(Frame::pong());
        assert!(out.len() == 10 || (out.len() >= 21 && out.len() <= 84));
        assert_eq!(Frame::decode(&out).unwrap().frame_type, FrameType::Pong);
    }
    let plain = ObfuscationLayer::new(false, false);
    assert_eq!(plain.wrap_outgoing(Frame::pong()).len(), 10);
}

#[test]
fn noise_is_padding_frame() {
    for _ in 0..20 {
        let n = ObfuscationLayer::generate_noise();
        assert!(n.len() >= 42 && n.len() <= 137);
        assert_eq!(Frame::decode(&n).unwrap().frame_type, FrameType::Padding);
    }
}

#[test]
fn relay_stream_answers_each_ping_until_shutdown() {
    let mut relay = TcpRelay::new();
    let ping = Frame::ping().encode();
    let data = Frame::new(FrameType::StreamData, ChannelId(1000), vec![7]).encode();
    let shutdown = Frame::new(FrameType::Shutdown, ChannelId(0), vec![]).encode();
    let mut written = Vec::new();
    for chunk in [&ping, &data, &ping, &shutdown] {
        assert!(relay.is_open());
        if let RelayAction::Reply(b) = relay.on_chunk(chunk) {
            written.push(b);
        }
    }
    assert!(!relay.is_open());
    assert_eq!(written, vec![Frame::pong().encode(), Frame::pong().encode()]);
    let mut bad = TcpRelay::new();
    assert!(matches!(bad.on_chunk(&[1, 2, 3]), RelayAction::Stop));
    assert!(!bad.is_open());
}

#[test]
fn relay_actions() {
    match tcp_frame_action(&Frame::ping().encode()) {
        RelayAction::Reply(b) => assert_eq!(b, Frame::pong().encode()),
        _ => panic!("ping not answered"),
    }
    let shutdown = Frame::new(FrameType::Shutdown, ChannelId(0), vec![]);
    assert!(matches!(tcp_frame_action(&shutdown.encode()), RelayAction::Stop));
    assert!(matches!(tcp_frame_action(&[1, 2, 3]), RelayAction::Stop));
    let open = Frame::new(FrameType::StreamOpen, ChannelId(1000), b"x:1".to_vec());
    assert!(matches!(tcp_frame_action(&open.encode()), RelayAction::Continue));
}

#[test]
fn destination_rules() {
    let mut c = server_config();
    assert!(is_destination_allowed("anything:80", &c));
    c.node.allowed_destinations = vec!["example.com".into(), "10.0.0.0/8".into()];
    assert!(is_destination_allowed("example.com:443", &c));
    assert!(!is_destination_allowed("api.example.com:443", &c));
    assert!(!is_destination_allowed("example.com.evil.net:443", &c));
    assert!(is_destination_allowed("10.1.2.3:80", &c));
    assert!(is_destination_allowed("10.0.0.5:22", &c));
    assert!(!is_destination_allowed("11.0.0.1:22", &c));
    assert!(!is_destination_allowed("evil.org:443", &c));
    assert_eq!(
        tcp_relay_target(b"  example.com:443\n", &c).unwrap(),
        ("example.com:443".to_string(), vec![])
    );
    match tcp_relay_target(b"evil.org:1", &c) {
        Err(Failure::Message(m)) => assert_eq!(m, "Destination not allowed: evil.org:1"),
        _ => panic!(),
    }
    assert_eq!(
        tcp_relay_target(&[0xff], &c).err().unwrap().message(),
        "invalid utf-8 sequence of 1 bytes from index 0"
    );
}

#[test]
fn relay_header_splits_first_line_from_payload() {
    let c = server_config();
    assert_eq!(
        tcp_relay_target(b"example.com:443\nGET / HTTP/1.1\r\n", &c).unwrap(),
        ("example.com:443".to_string(), b"GET / HTTP/1.1\r\n".to_vec())
    );
    assert_eq!(
        tcp_relay_target(b"a.b:1 \r\n\n\xff", &c).unwrap(),
        ("a.b:1".to_string(), vec![b'\n', 0xff])
    );
    assert_eq!(tcp_relay_target(b"host:22", &c).unwrap(), ("host:22".to_string(), vec![]));
    assert_eq!(
        tcp_relay_target(b"ok:1\xff\nrest", &c).err().unwrap().message(),
        "invalid utf-8 sequence of 1 bytes from index 4"
    );
    assert_eq!(stream_header("a:1"), b"a:1\n".to_vec());
    assert_eq!(stream_header(""), b"\n".to_vec());
}

#[test]
fn cidr_and_address_parsing() {
    let cs = |s: &str| s.chars().collect::<Vec<char>>();
    assert_eq!(parse_ipv4(&cs("10.1.2.3")), Some(0x0a010203));
    assert_eq!(parse_ipv4(&cs("255.255.255.255")), Some(u32::MAX));
    assert_eq!(parse_ipv4(&cs("256.1.1.1")), None);
    assert_eq!(parse_ipv4(&cs("01.1.1.1")), None);
    assert_eq!(parse_ipv4(&cs("1.1.1")), None);
    assert_eq!(parse_ipv4(&cs("1.1.1.1.1")), None);
    assert_eq!(parse_cidr(&cs("192.168.0.0/16")), Some((0xc0a80000, 16)));
    assert_eq!(parse_cidr(&cs("0.0.0.0/0")), Some((0, 0)));
    assert_eq!(parse_cidr(&cs("1.2.3.4/33")), None);
    assert_eq!(parse_cidr(&cs("example.com")), None);
    assert!(rule_admits_host("192.168.0.0/16", &cs("192.168.44.1")));
    assert!(!rule_admits_host("192.168.0.0/16", &cs("192.169.0.1")));
    assert!(rule_admits_host("0.0.0.0/0", &cs("8.8.8.8")));
    assert!(rule_admits_host("1.2.3.4/32", &cs("1.2.3.4")));
    assert!(!rule_admits_host("1.2.3.4/32", &cs("1.2.3.5")));
    assert!(!rule_admits_host("10.0.0.0/8", &cs("example.com")));
}

#[test]
fn admin_header_check() {
    assert!(admin_authorized(Some("t0k"), "t0k"));
    assert!(!admin_authorized(Some("t0"), "t0k"));
    assert!(!admin_authorized(None, "t0k"));
}
