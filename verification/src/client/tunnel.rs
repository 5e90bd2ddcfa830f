//! The tunnel device and the routing of raw IP packets read from it.
use vstd::prelude::*;

use super::proxy::{ipv4_dest, ipv4_dest_text};
use crate::server::policy::{bounded_decimal, dest_host, ipv4_spec};
use crate::text::{
    all_digits, dec_spec, digit_char, first_index_from, is_digit, last_index_of, lemma_dec_digits,
    lemma_dec_parse, lemma_dec_value, lemma_first_index_from, parse_u64_spec,
};
use crate::wire::{be16_at, be32_at, copy_range, read_be16};

verus! {

/// A named TUN device.
#[derive(Debug, Clone)]
pub struct TunDevice {
    pub name: String,
}

/// Where a packet read from the tunnel is relayed.
#[derive(Debug)]
pub enum PacketRoute {
    /// Not relayed: too short, not IPv4, or neither TCP nor UDP.
    Skip,
    /// A TCP segment: open a relay stream to `dest`.
    Tcp { dest: String },
    /// A UDP datagram: send `payload` to `dest`.
    Udp { dest: String, payload: Vec<u8> },
}

/// Header length of an IPv4 packet, in bytes (IHL times four).
pub open spec fn ihl_bytes(p: Seq<u8>) -> int {
    ((p[0] % 16) * 4) as int
}

/// The relay decision for an IP packet: IPv4 only (version nibble 4, at
/// least 20 bytes); TCP (protocol 6) needs its ports, UDP (17) its whole
/// header; the destination is the header's address and the transport's
/// destination port.
pub open spec fn packet_route_spec(p: Seq<u8>) -> Option<(bool, Seq<char>, Seq<u8>)> {
    if p.len() < 20 || p[0] / 16 != 4 {
        None
    } else {
        let ihl = ihl_bytes(p);
        let dest = ipv4_dest_text(p[16], p[17], p[18], p[19], be16_at(p, ihl + 2));
        if p[9] == 6 && p.len() >= ihl + 4 {
            Some((true, dest, Seq::empty()))
        } else if p[9] == 17 && p.len() >= ihl + 8 {
            Some((false, dest, p.subrange(ihl + 8, p.len() as int)))
        } else {
            None
        }
    }
}

/// Decides how a packet read from the tunnel is relayed.
pub fn classify_ipv4_packet(packet: &[u8]) -> (r: PacketRoute)
    ensures
        match packet_route_spec(packet@) {
            None => r is Skip,
            Some((true, dest, _)) => r matches PacketRoute::Tcp { dest: d } && d@ == dest,
            Some((false, dest, payload)) => r matches PacketRoute::Udp { dest: d, payload: q }
                && d@ == dest && q@ == payload,
        },
{
    let n = packet.len();
    if n < 20 || packet[0] / 16 != 4 {
        return PacketRoute::Skip;
    }
    let ihl = ((packet[0] % 16) * 4) as usize;
    let protocol = packet[9];
    if protocol == 6 && n >= ihl + 4 {
        let port = read_be16(packet, ihl + 2);
        PacketRoute::Tcp { dest: ipv4_dest(packet[16], packet[17], packet[18], packet[19], port) }
    } else if protocol == 17 && n >= ihl + 8 {
        let port = read_be16(packet, ihl + 2);
        let dest = ipv4_dest(packet[16], packet[17], packet[18], packet[19], port);
        PacketRoute::Udp { dest, payload: copy_range(packet, ihl + 8, n) }
    } else {
        PacketRoute::Skip
    }
}


/// The decimal notation of an octet is what an IPv4 address part accepts:
/// one to three digits, no leading zero, reading back as the octet.
proof fn lemma_octet_notation(n: nat)
    requires
        n <= 255,
    ensures
        bounded_decimal(dec_spec(n), 3, 255) == Some(n),
        all_digits(dec_spec(n)),
{
    lemma_dec_value(n);
    lemma_dec_digits(n);
    let s = dec_spec(n);
    if n < 10 {
        assert(s.len() == 1);
    } else if n < 100 {
        assert(dec_spec(n / 10) == seq![digit_char(n / 10)]);
        assert(s.len() == 2);
        assert(s[0] == digit_char(n / 10));
    } else {
        assert(dec_spec(n / 100) == seq![digit_char(n / 100)]);
        assert(dec_spec(n / 10) == dec_spec(n / 10 / 10).push(digit_char((n / 10) % 10)));
        assert(n / 10 / 10 == n / 100);
        assert(dec_spec(n / 10).len() == 2);
        assert(dec_spec(n / 10)[0] == digit_char(n / 100));
        assert(s.len() == 3);
        assert(s[0] == digit_char(n / 100));
    }
}

proof fn lemma_first_index_is(cs: Seq<char>, c: char, from: int, i: int)
    requires
        0 <= from <= i < cs.len(),
        cs[i] == c,
        forall|j: int| from <= j < i ==> cs[j] != c,
    ensures
        first_index_from(cs, c, from) == Some(i),
{
    lemma_first_index_from(cs, c, from);
}

proof fn lemma_first_index_none(cs: Seq<char>, c: char, from: int)
    requires
        0 <= from,
        forall|j: int| from <= j < cs.len() ==> cs[j] != c,
    ensures
        first_index_from(cs, c, from) is None,
{
    lemma_first_index_from(cs, c, from);
}

proof fn lemma_last_index_is(cs: Seq<char>, c: char, i: int)
    requires
        0 <= i < cs.len(),
        cs[i] == c,
        forall|j: int| i < j < cs.len() ==> cs[j] != c,
    ensures
        last_index_of(cs, c) == Some(i),
{
    reveal(last_index_of);
    assert(exists|k: int| 0 <= k < cs.len() && cs[k] == c);
    let w = choose|k: int| 0 <= k < cs.len() && cs[k] == c && forall|j: int| k < j < cs.len() ==> cs[j] != c;
    assert(0 <= i < cs.len() && cs[i] == c && forall|j: int| i < j < cs.len() ==> cs[j] != c);
    if w < i {
        assert(cs[i] != c);
    }
    if w > i {
        assert(cs[w] != c);
    }
}

/// The dotted-quad text `a.b.c.d`.
pub open spec fn dotted_quad(a: u8, b: u8, c: u8, d: u8) -> Seq<char> {
    dec_spec(a as nat) + "."@ + dec_spec(b as nat) + "."@ + dec_spec(c as nat) + "."@ + dec_spec(
        d as nat,
    )
}

/// Writing four octets as `a.b.c.d` and reading the text back as an IPv4
/// address gives the big-endian number of the octets, most significant
/// first.
pub proof fn lemma_dotted_quad_reads_back(a: u8, b: u8, c: u8, d: u8)
    ensures
        ipv4_spec(dotted_quad(a, b, c, d)) == Some(
            ((a as u32) << 24u32) | ((b as u32) << 16u32) | ((c as u32) << 8u32) | (d as u32),
        ),
{
    reveal_strlit(".");
    let sa = dec_spec(a as nat);
    let sb = dec_spec(b as nat);
    let sc = dec_spec(c as nat);
    let sd = dec_spec(d as nat);
    lemma_octet_notation(a as nat);
    lemma_octet_notation(b as nat);
    lemma_octet_notation(c as nat);
    lemma_octet_notation(d as nat);
    let s = dotted_quad(a, b, c, d);
    let i1 = sa.len() as int;
    let i2 = i1 + 1 + sb.len();
    let i3 = i2 + 1 + sc.len();
    assert(s.len() == i3 + 1 + sd.len());
    assert forall|j: int| 0 <= j < i1 implies s[j] == sa[j] by {}
    assert forall|j: int| i1 < j < i2 implies s[j] == sb[j - i1 - 1] by {}
    assert forall|j: int| i2 < j < i3 implies s[j] == sc[j - i2 - 1] by {}
    assert forall|j: int| i3 < j < s.len() implies s[j] == sd[j - i3 - 1] by {}
    assert(s[i1] == '.' && s[i2] == '.' && s[i3] == '.');
    assert forall|j: int| 0 <= j < i1 implies s[j] != '.' by {
        assert(is_digit(sa[j]));
    }
    assert forall|j: int| i1 + 1 <= j < i2 implies s[j] != '.' by {
        assert(is_digit(sb[j - i1 - 1]));
    }
    assert forall|j: int| i2 + 1 <= j < i3 implies s[j] != '.' by {
        assert(is_digit(sc[j - i2 - 1]));
    }
    assert forall|j: int| i3 + 1 <= j < s.len() implies s[j] != '.' by {
        assert(is_digit(sd[j - i3 - 1]));
    }
    lemma_first_index_is(s, '.', 0, i1);
    lemma_first_index_is(s, '.', i1 + 1, i2);
    lemma_first_index_is(s, '.', i2 + 1, i3);
    lemma_first_index_none(s, '.', i3 + 1);
    assert(s.subrange(0, i1) =~= sa);
    assert(s.subrange(i1 + 1, i2) =~= sb);
    assert(s.subrange(i2 + 1, i3) =~= sc);
    assert(s.subrange(i3 + 1, s.len() as int) =~= sd);
    assert((a as nat * 16777216 + b as nat * 65536 + c as nat * 256 + d as nat) as u32 == ((a as u32)
        << 24u32) | ((b as u32) << 16u32) | ((c as u32) << 8u32) | (d as u32)) by (bit_vector);
}

/// The relay destination of an IPv4 packet names the packet's own
/// destination: the host part, read back as an IPv4 address, is the
/// big-endian value of header bytes 16..20, and the port part reads back
/// as the transport header's destination port.
pub proof fn lemma_route_names_packet_destination(p: Seq<u8>)
    requires
        packet_route_spec(p) is Some,
    ensures
        match packet_route_spec(p) {
            Some((_, dest, _)) => {
                &&& last_index_of(dest, ':') == Some(dest_host(dest).len() as int)
                &&& ipv4_spec(dest_host(dest)) == Some(be32_at(p, 16))
                &&& parse_u64_spec(dest.subrange((dest_host(dest).len() + 1) as int, dest.len() as int))
                    == Some(be16_at(p, ihl_bytes(p) + 2) as u64)
            },
            None => true,
        },
{
    reveal_strlit(":");
    reveal_strlit(".");
    let port = be16_at(p, ihl_bytes(p) + 2);
    let q = dotted_quad(p[16], p[17], p[18], p[19]);
    let sp = dec_spec(port as nat);
    let dest = ipv4_dest_text(p[16], p[17], p[18], p[19], port);
    assert(dest =~= q + ":"@ + sp);
    lemma_dotted_quad_reads_back(p[16], p[17], p[18], p[19]);
    lemma_dec_digits(port as nat);
    lemma_dec_parse(port as u64);
    lemma_octet_notation(p[16] as nat);
    lemma_octet_notation(p[17] as nat);
    lemma_octet_notation(p[18] as nat);
    lemma_octet_notation(p[19] as nat);
    let k = q.len() as int;
    assert(dest[k] == ':');
    assert forall|j: int| k < j < dest.len() implies dest[j] != ':' by {
        assert(dest[j] == sp[j - k - 1]);
        assert(is_digit(sp[j - k - 1]));
    }
    lemma_last_index_is(dest, ':', k);
    assert(dest_host(dest) =~= q);
    assert(dest.subrange(k + 1, dest.len() as int) =~= sp);
}

} // verus!
