//! UDP relay datagrams: `| dest_len (2) | dest (N) | payload |`, the
//! length big-endian and the destination UTF-8 `host:port` text.
use vstd::prelude::*;
use vstd::string::StringSliceAdditionalSpecFns;

use crate::error::Failure;
use crate::server::policy::{destination_allowed, destination_allowed_by};
use crate::text::utf8_text;
use crate::wire::{be16, be16_at, copy_range, extend_range, lemma_be16_canonical, lemma_be16_roundtrip, push_be16, read_be16};

verus! {

/// The datagram carrying `payload` to the destination whose UTF-8 bytes
/// are `dest`; the length field holds the length truncated to 16 bits.
pub open spec fn datagram_spec(dest: Seq<u8>, payload: Seq<u8>) -> Seq<u8> {
    be16(dest.len() as u16) + dest + payload
}

/// Frames `data` for `dest` (what the client sends as a QUIC datagram).
pub fn encode_datagram(dest: &str, data: &[u8]) -> (b: Vec<u8>)
    ensures
        b@ == datagram_spec(dest.spec_bytes(), data@),
{
    let dest_bytes = dest.as_bytes();
    let mut buf: Vec<u8> = Vec::new();
    push_be16(&mut buf, dest_bytes.len() as u16);
    extend_range(&mut buf, dest_bytes, 0, dest_bytes.len());
    extend_range(&mut buf, data, 0, data.len());
    assert(dest_bytes@.subrange(0, dest_bytes@.len() as int) =~= dest_bytes@);
    assert(data@.subrange(0, data@.len() as int) =~= data@);
    assert(buf@ =~= datagram_spec(dest.spec_bytes(), data@));
    buf
}

/// The destination bytes and payload of a datagram, or none when it is too
/// short (under 3 bytes, or shorter than its destination).
pub open spec fn datagram_parts(b: Seq<u8>) -> Option<(Seq<u8>, Seq<u8>)> {
    if b.len() < 3 {
        None
    } else {
        let n = be16_at(b, 0) as int;
        if b.len() < 2 + n {
            None
        } else {
            Some((b.subrange(2, 2 + n), b.subrange(2 + n, b.len() as int)))
        }
    }
}

/// Where a received datagram goes.
#[derive(Debug)]
pub enum DatagramRoute {
    /// Dropped: too short, or UDP relaying is disabled.
    Ignore,
    /// Sent on to `dest`.
    Forward { dest: String, payload: Vec<u8> },
}

/// Decides what to do with a received datagram: too short ones are
/// dropped, a destination that is not UTF-8 is an error, nothing is sent
/// when UDP relaying is disabled, and a destination the exit policy
/// `allowed` does not admit is refused; the rest are forwarded.
pub fn route_datagram(data: &[u8], udp_enabled: bool, allowed: &Vec<String>) -> (r: Result<DatagramRoute, Failure>)
    ensures
        match datagram_parts(data@) {
            None => r matches Ok(DatagramRoute::Ignore),
            Some((d, p)) => if !vstd::utf8::valid_utf8(d) {
                r matches Err(Failure::Message(t)) && t@ == crate::text::utf8_error_message(d)
            } else if !udp_enabled {
                r matches Ok(DatagramRoute::Ignore)
            } else if !destination_allowed(vstd::utf8::decode_utf8(d), allowed@) {
                r matches Err(Failure::Message(t)) && t@ == "Destination not allowed: "@
                    + vstd::utf8::decode_utf8(d)
            } else {
                r matches Ok(DatagramRoute::Forward { dest, payload }) && dest@
                    == vstd::utf8::decode_utf8(d) && payload@ == p
            },
        },
{
    if data.len() < 3 {
        return Ok(DatagramRoute::Ignore);
    }
    let dest_len = read_be16(data, 0) as usize;
    if data.len() < 2 + dest_len {
        return Ok(DatagramRoute::Ignore);
    }
    let dest_bytes = copy_range(data, 2, 2 + dest_len);
    let dest = match utf8_text(dest_bytes.as_slice()) {
        Some(d) => d,
        None => {
            return Err(Failure::Message(crate::text::utf8_error_text(dest_bytes.as_slice())));
        },
    };
    let payload = copy_range(data, 2 + dest_len, data.len());
    if !udp_enabled {
        return Ok(DatagramRoute::Ignore);
    }
    if !destination_allowed_by(dest.as_str(), allowed) {
        let mut m = String::new();
        crate::text::push_str(&mut m, "Destination not allowed: ");
        crate::text::push_str(&mut m, dest.as_str());
        return Err(Failure::Message(m));
    }
    Ok(DatagramRoute::Forward { dest, payload })
}

/// A datagram the client frames is routed by the server to the same
/// destination with the same payload, when the destination fits the 16-bit
/// length field and the datagram is at least 3 bytes long.
pub proof fn lemma_datagram_roundtrip(dest: Seq<char>, payload: Seq<u8>)
    requires
        vstd::utf8::encode_utf8(dest).len() <= u16::MAX,
        vstd::utf8::encode_utf8(dest).len() + payload.len() >= 1,
    ensures
        datagram_parts(datagram_spec(vstd::utf8::encode_utf8(dest), payload)) == Some(
            (vstd::utf8::encode_utf8(dest), payload),
        ),
        vstd::utf8::valid_utf8(vstd::utf8::encode_utf8(dest)),
        vstd::utf8::decode_utf8(vstd::utf8::encode_utf8(dest)) == dest,
{
    let d = vstd::utf8::encode_utf8(dest);
    let b = datagram_spec(d, payload);
    assert((d.len() as u16) as nat == d.len());
    assert(b.subrange(0, 2) =~= be16(d.len() as u16));
    lemma_be16_roundtrip(d.len() as u16, b, 0);
    assert(b.subrange(2, 2 + d.len() as int) =~= d);
    assert(b.subrange(2 + d.len() as int, b.len() as int) =~= payload);
    vstd::utf8::encode_utf8_valid_utf8(dest);
    vstd::utf8::encode_utf8_decode_utf8(dest);
}

/// A datagram the server accepts is exactly the framing of its destination
/// and payload: nothing in it is lost or ignored.
pub proof fn lemma_datagram_canonical(b: Seq<u8>)
    ensures
        datagram_parts(b) matches Some((d, p)) ==> datagram_spec(d, p) == b,
{
    if let Some((d, p)) = datagram_parts(b) {
        lemma_be16_canonical(b, 0);
        let n = be16_at(b, 0);
        assert(d.len() == n as nat);
        assert((d.len() as u16) == n);
        assert(datagram_spec(d, p) =~= b);
    }
}

} // verus!
