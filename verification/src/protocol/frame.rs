//! The Veil wire frame.
//!
//! Layout: `| version (1) | type (1) | channel_id (4) | length (4) | payload (N) |`,
//! integers big-endian.
use vstd::prelude::*;

use crate::error::VeilError;
use crate::crypto::hex::{hex_byte_spec, push_hex_byte};
use crate::text::push_str;
use crate::wire::{be32, be32_at, copy_range, extend_range, lemma_be32_canonical, lemma_be32_roundtrip, push_be32, read_be32, zeros};

verus! {

/// Logical channel identifiers.
#[derive(Debug, Clone, Copy, PartialEq, Eq, Hash, Structural)]
pub struct ChannelId(pub u32);

/// Data relay channels start from this identifier.
pub const RELAY_BASE: u32 = 1000;

impl ChannelId {
    /// The control channel (0).
    pub fn control() -> (c: Self)
        ensures
            c.0 == 0,
    {
        ChannelId(0)
    }

    /// The authentication channel (1).
    pub fn auth() -> (c: Self)
        ensures
            c.0 == 1,
    {
        ChannelId(1)
    }

    /// The DNS channel (2).
    pub fn dns() -> (c: Self)
        ensures
            c.0 == 2,
    {
        ChannelId(2)
    }

    /// The telemetry channel (3).
    pub fn telemetry() -> (c: Self)
        ensures
            c.0 == 3,
    {
        ChannelId(3)
    }
}

/// Veil frame types.
#[derive(Debug, Clone, Copy, PartialEq, Eq, Structural)]
pub enum FrameType {
    // Control plane
    Ping,
    Pong,
    Error,
    Shutdown,
    // Auth
    AuthHello,
    AuthChallenge,
    AuthResponse,
    AuthOk,
    AuthFail,
    // Data relay
    StreamOpen,
    StreamData,
    StreamClose,
    StreamReset,
    // Datagram (unreliable, low-latency)
    Datagram,
    // DNS
    DnsQuery,
    DnsResponse,
    // Config / management
    ConfigPush,
    ConfigAck,
    // Obfuscation padding
    Padding,
}

/// The wire byte of each frame type.
pub open spec fn type_byte(t: FrameType) -> u8 {
    match t {
        FrameType::Ping => 0x01,
        FrameType::Pong => 0x02,
        FrameType::Error => 0x03,
        FrameType::Shutdown => 0x04,
        FrameType::AuthHello => 0x10,
        FrameType::AuthChallenge => 0x11,
        FrameType::AuthResponse => 0x12,
        FrameType::AuthOk => 0x13,
        FrameType::AuthFail => 0x14,
        FrameType::StreamOpen => 0x20,
        FrameType::StreamData => 0x21,
        FrameType::StreamClose => 0x22,
        FrameType::StreamReset => 0x23,
        FrameType::Datagram => 0x30,
        FrameType::DnsQuery => 0x40,
        FrameType::DnsResponse => 0x41,
        FrameType::ConfigPush => 0x50,
        FrameType::ConfigAck => 0x51,
        FrameType::Padding => 0xFF,
    }
}

/// The frame type a wire byte denotes, if any.
pub open spec fn type_of_byte(v: u8) -> Option<FrameType> {
    if v == 0x01 {
        Some(FrameType::Ping)
    } else if v == 0x02 {
        Some(FrameType::Pong)
    } else if v == 0x03 {
        Some(FrameType::Error)
    } else if v == 0x04 {
        Some(FrameType::Shutdown)
    } else if v == 0x10 {
        Some(FrameType::AuthHello)
    } else if v == 0x11 {
        Some(FrameType::AuthChallenge)
    } else if v == 0x12 {
        Some(FrameType::AuthResponse)
    } else if v == 0x13 {
        Some(FrameType::AuthOk)
    } else if v == 0x14 {
        Some(FrameType::AuthFail)
    } else if v == 0x20 {
        Some(FrameType::StreamOpen)
    } else if v == 0x21 {
        Some(FrameType::StreamData)
    } else if v == 0x22 {
        Some(FrameType::StreamClose)
    } else if v == 0x23 {
        Some(FrameType::StreamReset)
    } else if v == 0x30 {
        Some(FrameType::Datagram)
    } else if v == 0x40 {
        Some(FrameType::DnsQuery)
    } else if v == 0x41 {
        Some(FrameType::DnsResponse)
    } else if v == 0x50 {
        Some(FrameType::ConfigPush)
    } else if v == 0x51 {
        Some(FrameType::ConfigAck)
    } else if v == 0xFF {
        Some(FrameType::Padding)
    } else {
        None
    }
}

/// The error an unknown type byte is reported with.
pub open spec fn is_unknown_type_error(e: VeilError, v: u8) -> bool {
    (e is Protocol) && e.detail() == "Unknown frame type: 0x"@ + hex_byte_spec(v)
}

impl FrameType {
    /// The wire byte of this type.
    pub fn to_u8(self) -> (b: u8)
        ensures
            b == type_byte(self),
    {
        match self {
            FrameType::Ping => 0x01,
            FrameType::Pong => 0x02,
            FrameType::Error => 0x03,
            FrameType::Shutdown => 0x04,
            FrameType::AuthHello => 0x10,
            FrameType::AuthChallenge => 0x11,
            FrameType::AuthResponse => 0x12,
            FrameType::AuthOk => 0x13,
            FrameType::AuthFail => 0x14,
            FrameType::StreamOpen => 0x20,
            FrameType::StreamData => 0x21,
            FrameType::StreamClose => 0x22,
            FrameType::StreamReset => 0x23,
            FrameType::Datagram => 0x30,
            FrameType::DnsQuery => 0x40,
            FrameType::DnsResponse => 0x41,
            FrameType::ConfigPush => 0x50,
            FrameType::ConfigAck => 0x51,
            FrameType::Padding => 0xFF,
        }
    }

    /// The type a wire byte denotes; an unknown byte is a protocol error
    /// naming the byte in hexadecimal.
    pub fn try_from(v: u8) -> (r: Result<Self, VeilError>)
        ensures
            match r {
                Ok(t) => type_of_byte(v) == Some(t),
                Err(e) => type_of_byte(v) is None && is_unknown_type_error(e, v),
            },
    {
        if v == 0x01 {
            Ok(FrameType::Ping)
        } else if v == 0x02 {
            Ok(FrameType::Pong)
        } else if v == 0x03 {
            Ok(FrameType::Error)
        } else if v == 0x04 {
            Ok(FrameType::Shutdown)
        } else if v == 0x10 {
            Ok(FrameType::AuthHello)
        } else if v == 0x11 {
            Ok(FrameType::AuthChallenge)
        } else if v == 0x12 {
            Ok(FrameType::AuthResponse)
        } else if v == 0x13 {
            Ok(FrameType::AuthOk)
        } else if v == 0x14 {
            Ok(FrameType::AuthFail)
        } else if v == 0x20 {
            Ok(FrameType::StreamOpen)
        } else if v == 0x21 {
            Ok(FrameType::StreamData)
        } else if v == 0x22 {
            Ok(FrameType::StreamClose)
        } else if v == 0x23 {
            Ok(FrameType::StreamReset)
        } else if v == 0x30 {
            Ok(FrameType::Datagram)
        } else if v == 0x40 {
            Ok(FrameType::DnsQuery)
        } else if v == 0x41 {
            Ok(FrameType::DnsResponse)
        } else if v == 0x50 {
            Ok(FrameType::ConfigPush)
        } else if v == 0x51 {
            Ok(FrameType::ConfigAck)
        } else if v == 0xFF {
            Ok(FrameType::Padding)
        } else {
            let mut m = String::new();
            push_str(&mut m, "Unknown frame type: 0x");
            push_hex_byte(&mut m, v);
            Err(VeilError::Protocol(m))
        }
    }
}

/// Every frame type's byte denotes that type again.
pub proof fn lemma_type_byte_roundtrip(t: FrameType)
    ensures
        type_of_byte(type_byte(t)) == Some(t),
{
}

/// A byte that denotes a type is that type's byte.
pub proof fn lemma_type_byte_canonical(v: u8)
    ensures
        type_of_byte(v) matches Some(t) ==> type_byte(t) == v,
{
}

/// Wire-format Veil frame.
#[derive(Debug, Clone)]
pub struct Frame {
    pub version: u8,
    pub frame_type: FrameType,
    pub channel_id: ChannelId,
    pub payload: Vec<u8>,
}

/// The mathematical content of a frame.
pub struct FrameView {
    pub version: u8,
    pub frame_type: FrameType,
    pub channel_id: u32,
    pub payload: Seq<u8>,
}

impl View for Frame {
    type V = FrameView;

    open spec fn view(&self) -> FrameView {
        FrameView {
            version: self.version,
            frame_type: self.frame_type,
            channel_id: self.channel_id.0,
            payload: self.payload@,
        }
    }
}

/// Size of the frame header: 1 + 1 + 4 + 4.
pub const HEADER_SIZE: usize = 10;

/// The bytes of an encoded frame. The length field holds the payload length
/// truncated to 32 bits.
pub open spec fn encode_spec(f: FrameView) -> Seq<u8> {
    seq![f.version, type_byte(f.frame_type)] + be32(f.channel_id) + be32(
        f.payload.len() as u32,
    ) + f.payload
}

/// Why a byte string is not a frame.
#[derive(Debug, Clone, Copy, PartialEq, Eq, Structural)]
pub enum FrameDecodeFailure {
    TooShort,
    UnknownType(u8),
    Truncated,
}

/// Decoding a frame from the front of `b`; bytes after the payload are
/// ignored.
pub open spec fn decode_spec(b: Seq<u8>) -> Result<FrameView, FrameDecodeFailure> {
    if b.len() < HEADER_SIZE {
        Err(FrameDecodeFailure::TooShort)
    } else {
        match type_of_byte(b[1]) {
            None => Err(FrameDecodeFailure::UnknownType(b[1])),
            Some(t) => {
                let len = be32_at(b, 6);
                if b.len() - HEADER_SIZE < len {
                    Err(FrameDecodeFailure::Truncated)
                } else {
                    Ok(
                        FrameView {
                            version: b[0],
                            frame_type: t,
                            channel_id: be32_at(b, 2),
                            payload: b.subrange(HEADER_SIZE as int, HEADER_SIZE + len),
                        },
                    )
                }
            },
        }
    }
}

/// The error each decoding failure is reported with.
pub open spec fn decode_error_matches(e: VeilError, f: FrameDecodeFailure) -> bool {
    match f {
        FrameDecodeFailure::TooShort => (e is Protocol) && e.detail() == "Frame too short"@,
        FrameDecodeFailure::UnknownType(v) => is_unknown_type_error(e, v),
        FrameDecodeFailure::Truncated => (e is Protocol) && e.detail() == "Truncated frame payload"@,
    }
}

impl Frame {
    /// A version-1 frame.
    pub fn new(frame_type: FrameType, channel_id: ChannelId, payload: Vec<u8>) -> (f: Self)
        ensures
            f.version == 1,
            f.frame_type == frame_type,
            f.channel_id == channel_id,
            f.payload@ == payload@,
    {
        Frame { version: 1, frame_type, channel_id, payload }
    }

    /// An empty ping on the control channel.
    pub fn ping() -> (f: Self)
        ensures
            f.version == 1,
            f.frame_type == FrameType::Ping,
            f.channel_id.0 == 0,
            f.payload@.len() == 0,
    {
        Self::new(FrameType::Ping, ChannelId::control(), Vec::new())
    }

    /// An empty pong on the control channel.
    pub fn pong() -> (f: Self)
        ensures
            f.version == 1,
            f.frame_type == FrameType::Pong,
            f.channel_id.0 == 0,
            f.payload@.len() == 0,
    {
        Self::new(FrameType::Pong, ChannelId::control(), Vec::new())
    }

    /// A padding frame on the control channel carrying `size` zero bytes.
    pub fn padding(size: usize) -> (f: Self)
        ensures
            f.version == 1,
            f.frame_type == FrameType::Padding,
            f.channel_id.0 == 0,
            f.payload@ == Seq::new(size as nat, |i: int| 0u8),
    {
        Self::new(FrameType::Padding, ChannelId::control(), zeros(size))
    }

    /// Encodes the frame to bytes.
    pub fn encode(&self) -> (b: Vec<u8>)
        ensures
            b@ == encode_spec(self@),
    {
        let mut buf: Vec<u8> = Vec::new();
        buf.push(self.version);
        buf.push(self.frame_type.to_u8());
        push_be32(&mut buf, self.channel_id.0);
        push_be32(&mut buf, self.payload.len() as u32);
        extend_range(&mut buf, self.payload.as_slice(), 0, self.payload.len());
        assert(self.payload@.subrange(0, self.payload@.len() as int) =~= self.payload@);
        assert(buf@ =~= encode_spec(self@));
        buf
    }

    /// Decodes a frame from the front of `buf`.
    pub fn decode(buf: &[u8]) -> (r: Result<Self, VeilError>)
        ensures
            match r {
                Ok(f) => decode_spec(buf@) == Ok::<FrameView, FrameDecodeFailure>(f@),
                Err(e) => decode_spec(buf@) matches Err(k) && decode_error_matches(e, k),
            },
    {
        if buf.len() < HEADER_SIZE {
            return Err(VeilError::Protocol(String::from_str("Frame too short")));
        }
        let version = buf[0];
        let frame_type = match FrameType::try_from(buf[1]) {
            Ok(t) => t,
            Err(e) => {
                return Err(e);
            },
        };
        let channel_id = ChannelId(read_be32(buf, 2));
        let length = read_be32(buf, 6) as usize;
        if buf.len() - HEADER_SIZE < length {
            return Err(VeilError::Protocol(String::from_str("Truncated frame payload")));
        }
        let payload = copy_range(buf, HEADER_SIZE, HEADER_SIZE + length);
        let f = Frame { version, frame_type, channel_id, payload };
        assert(f@ == FrameView {
            version: buf@[0],
            frame_type,
            channel_id: be32_at(buf@, 2),
            payload: buf@.subrange(HEADER_SIZE as int, HEADER_SIZE + length),
        });
        Ok(f)
    }
}

/// Decoding an encoded frame gives the frame back, whatever follows it,
/// when the payload length fits the 32-bit length field.
pub proof fn lemma_frame_roundtrip(f: FrameView, rest: Seq<u8>)
    requires
        f.payload.len() <= u32::MAX,
    ensures
        decode_spec(encode_spec(f) + rest) == Ok::<FrameView, FrameDecodeFailure>(f),
{
    let b = encode_spec(f) + rest;
    let n = f.payload.len();
    assert((n as u32) as nat == n);
    assert(b[0] == f.version);
    assert(b[1] == type_byte(f.frame_type));
    assert(b.subrange(2, 6) =~= be32(f.channel_id));
    assert(b.subrange(6, 10) =~= be32(n as u32));
    lemma_be32_roundtrip(f.channel_id, b, 2);
    lemma_be32_roundtrip(n as u32, b, 6);
    assert(b.subrange(10, 10 + n as int) =~= f.payload);
}

/// A decoded frame re-encodes to exactly the bytes it was read from.
pub proof fn lemma_frame_canonical(b: Seq<u8>)
    ensures
        decode_spec(b) matches Ok(f) ==> encode_spec(f) == b.subrange(
            0,
            HEADER_SIZE + f.payload.len(),
        ),
{
    if let Ok(f) = decode_spec(b) {
        lemma_be32_canonical(b, 2);
        lemma_be32_canonical(b, 6);
        let len = be32_at(b, 6);
        assert(f.payload.len() == len as nat);
        assert(encode_spec(f) =~= b.subrange(0, HEADER_SIZE + f.payload.len()));
    }
}

/// The encoded length is the header plus the payload.
pub proof fn lemma_encode_len(f: FrameView)
    ensures
        encode_spec(f).len() == HEADER_SIZE + f.payload.len(),
{
}

} // verus!
