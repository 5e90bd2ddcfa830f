use veil::error::{Failure, VeilError};
use veil::protocol::datagram::{encode_datagram, route_datagram, DatagramRoute};
use veil::protocol::frame::{ChannelId, Frame, FrameType, HEADER_SIZE, RELAY_BASE};
use veil::protocol::session::{Session, SessionState};
use veil::time::Timestamp;
use veil::protocol::{ProtocolVersion, SessionToken, TrafficProfile, TransportMode};

fn protocol_detail(e: VeilError) -> String {
    match e {
        VeilError::Protocol(m) => m,
        other => panic!("unexpected error {:?}", other),
    }
}

#[test]
fn ping_encodes_to_bare_header() {
    let bytes = Frame::ping().encode();
    assert_eq!(bytes, vec![1, 0x01, 0, 0, 0, 0, 0, 0, 0, 0]);
    assert_eq!(bytes.len(), HEADER_SIZE);
}

#[test]
fn frame_layout_is_big_endian() {
    let f = Frame::new(FrameType::StreamData, ChannelId(RELAY_BASE + 2), vec![7, 8, 9]);
    assert_eq!(
        f.encode(),
        vec![1, 0x21, 0, 0, 0x03, 0xEA, 0, 0, 0, 3, 7, 8, 9]
    );
}

#[test]
fn frame_roundtrip_ignores_trailing_bytes() {
    let f = Frame::new(FrameType::DnsQuery, ChannelId::dns(), b"example.com".to_vec());
    let mut bytes = f.encode();
    bytes.extend_from_slice(&[0xAA, 0xBB]);
    let g = Frame::decode(&bytes).unwrap();
    assert_eq!(g.version, 1);
    assert_eq!(g.frame_type, FrameType::DnsQuery);
    assert_eq!(g.channel_id, ChannelId(2));
    assert_eq!(g.payload, b"example.com".to_vec());
}

#[test]
fn decode_too_short() {
    let e = Frame::decode(&[1, 1, 0, 0]).unwrap_err();
    assert_eq!(protocol_detail(e), "Frame too short");
}

#[test]
fn decode_unknown_type_names_byte() {
    let e = Frame::decode(&[1, 0x07, 0, 0, 0, 0, 0, 0, 0, 0]).unwrap_err();
    assert_eq!(protocol_detail(e), "Unknown frame type: 0x07");
    let e = Frame::decode(&[1, 0xab, 0, 0, 0, 0, 0, 0, 0, 0]).unwrap_err();
    assert_eq!(protocol_detail(e), "Unknown frame type: 0xab");
}

#[test]
fn decode_truncated_payload() {
    let e = Frame::decode(&[1, 0x21, 0, 0, 0, 1, 0, 0, 0, 5, 1, 2]).unwrap_err();
    assert_eq!(protocol_detail(e), "Truncated frame payload");
}

#[test]
fn frame_type_bytes_roundtrip() {
    let all = [
        FrameType::Ping, FrameType::Pong, FrameType::Error, FrameType::Shutdown,
        FrameType::AuthHello, FrameType::AuthChallenge, FrameType::AuthResponse,
        FrameType::AuthOk, FrameType::AuthFail, FrameType::StreamOpen, FrameType::StreamData,
        FrameType::StreamClose, FrameType::StreamReset, FrameType::Datagram, FrameType::DnsQuery,
        FrameType::DnsResponse, FrameType::ConfigPush, FrameType::ConfigAck, FrameType::Padding,
    ];
    let bytes = [
        0x01, 0x02, 0x03, 0x04, 0x10, 0x11, 0x12, 0x13, 0x14, 0x20, 0x21, 0x22, 0x23, 0x30, 0x40,
        0x41, 0x50, 0x51, 0xFF,
    ];
    for (t, b) in all.iter().zip(bytes.iter()) {
        assert_eq!(t.to_u8(), *b);
        assert_eq!(FrameType::try_from(*b).unwrap(), *t);
    }
    assert!(FrameType::try_from(0x00).is_err());
}

#[test]
fn padding_frame_is_zeros() {
    let f = Frame::padding(5);
    assert_eq!(f.frame_type, FrameType::Padding);
    assert_eq!(f.payload, vec![0; 5]);
    assert_eq!(f.encode().len(), 15);
}

#[test]
fn channel_ids() {
    assert_eq!(ChannelId::control(), ChannelId(0));
    assert_eq!(ChannelId::auth(), ChannelId(1));
    assert_eq!(ChannelId::dns(), ChannelId(2));
    assert_eq!(ChannelId::telemetry(), ChannelId(3));
}

#[test]
fn version_compatibility_and_text() {
    let cur = ProtocolVersion::current();
    assert_eq!(cur.to_text(), "0.1.0");
    let other = ProtocolVersion { major: 0, minor: 9, patch: 3 };
    assert!(cur.is_compatible(&other));
    let next = ProtocolVersion { major: 1, minor: 0, patch: 0 };
    assert!(!cur.is_compatible(&next));
    assert_eq!(ProtocolVersion { major: 12, minor: 0, patch: 255 }.to_text(), "12.0.255");
}

#[test]
fn default_profile_is_balanced() {
    assert_eq!(TrafficProfile::default(), TrafficProfile::Balanced);
}

#[test]
fn session_token_is_uuid_text() {
    let t = SessionToken::generate();
    assert_eq!(t.0.len(), 36);
    assert_eq!(t.0.matches('-').count(), 4);
    let cs: Vec<char> = t.0.chars().collect();
    for (i, c) in cs.iter().enumerate() {
        if [8, 13, 18, 23].contains(&i) {
            assert_eq!(*c, '-');
        } else {
            assert!(c.is_ascii_hexdigit() && !c.is_ascii_uppercase());
        }
    }
    assert_eq!(cs[14], '4');
    assert!("89ab".contains(cs[19]));
}

#[test]
fn new_session_is_handshaking() {
    let mut s = Session::new("abc".to_string(), TransportMode::TlsTcp);
    assert_eq!(s.state, SessionState::Handshaking);
    assert!(!s.is_active());
    assert_eq!(s.created_at, s.last_seen);
    assert_eq!(s.bytes_tx, 0);
    s.state = SessionState::Active;
    assert!(s.is_active());
    let before = s.created_at;
    s.touch();
    assert_eq!(s.created_at, before);
    assert!(!before.is_after(&s.last_seen));
    let later = Timestamp { secs: 1_900_000_000, nanos: 7 };
    s.touch_at(later);
    assert_eq!(s.last_seen, later);
    assert_eq!((s.created_at, s.state), (before, SessionState::Active));
}

#[test]
fn datagram_roundtrip() {
    let b = encode_datagram("1.2.3.4:53", b"query");
    assert_eq!(&b[..2], &[0, 10]);
    match route_datagram(&b, true, &vec![]).unwrap() {
        DatagramRoute::Forward { dest, payload } => {
            assert_eq!(dest, "1.2.3.4:53");
            assert_eq!(payload, b"query".to_vec());
        }
        DatagramRoute::Ignore => panic!("should forward"),
    }
    assert!(matches!(route_datagram(&b, false, &vec![]).unwrap(), DatagramRoute::Ignore));
}

#[test]
fn datagram_exit_policy() {
    let allowed = vec!["10.0.0.0/8".to_string(), "dns.example".to_string()];
    let ok = encode_datagram("10.9.8.7:53", b"q");
    assert!(matches!(route_datagram(&ok, true, &allowed).unwrap(), DatagramRoute::Forward { .. }));
    let named = encode_datagram("dns.example:53", b"q");
    assert!(matches!(route_datagram(&named, true, &allowed).unwrap(), DatagramRoute::Forward { .. }));
    let refused = encode_datagram("1.1.1.1:53", b"q");
    match route_datagram(&refused, true, &allowed) {
        Err(Failure::Message(m)) => assert_eq!(m, "Destination not allowed: 1.1.1.1:53"),
        _ => panic!("refused destination forwarded"),
    }
    assert!(matches!(route_datagram(&refused, false, &allowed).unwrap(), DatagramRoute::Ignore));
}

#[test]
fn routed_datagram_reframes_to_same_bytes() {
    let raw = vec![0u8, 3, b'a', b':', b'1', 9, 8, 7];
    match route_datagram(&raw, true, &vec![]).unwrap() {
        DatagramRoute::Forward { dest, payload } => {
            assert_eq!(encode_datagram(&dest, &payload), raw);
        }
        DatagramRoute::Ignore => panic!("should forward"),
    }
}

#[test]
fn datagram_short_or_truncated_is_ignored() {
    assert!(matches!(route_datagram(&[0, 1], true, &vec![]).unwrap(), DatagramRoute::Ignore));
    assert!(matches!(route_datagram(&[0, 9, b'a'], true, &vec![]).unwrap(), DatagramRoute::Ignore));
}

#[test]
fn datagram_non_utf8_destination_is_error() {
    let r = route_datagram(&[0, 1, 0xFF, 1], true, &vec![]);
    assert_eq!(r.err().unwrap().message(), "invalid utf-8 sequence of 1 bytes from index 0");
}

#[test]
fn error_messages() {
    assert_eq!(VeilError::AuthFailed("x".into()).message(), "Authentication failed: x");
    assert_eq!(VeilError::Protocol("y".into()).message(), "Protocol violation: y");
    assert_eq!(VeilError::Timeout.message(), "Timeout");
    assert_eq!(VeilError::AccessDenied.message(), "Access denied");
    let io = std::io::Error::new(std::io::ErrorKind::Other, "disk gone");
    assert_eq!(VeilError::Io(io).message(), "IO error: disk gone");
    let json = serde_json::from_str::<u8>("x").unwrap_err();
    assert_eq!(
        VeilError::Serde(json).message(),
        "Serialization error: expected value at line 1 column 1"
    );
}
