//! Local proxy protocol parsing: SOCKS5 greetings and CONNECT requests,
//! and HTTP CONNECT request lines.
use vstd::prelude::*;

use crate::error::Failure;
use crate::text::{
    chars_of, dec_spec, find_from, first_index_from, push_char, push_decimal, push_str, str_eq,
    string_of, utf8_error_message, utf8_error_text, utf8_text,
};
use crate::wire::{be16_at, copy_range, read_be16};

verus! {

/// A SOCKS5 greeting the proxy answers: at least 3 bytes, version 5.
pub open spec fn socks5_greeting_ok(b: Seq<u8>) -> bool {
    b.len() >= 3 && b[0] == 5
}

/// A SOCKS5 request the proxy serves: at least 7 bytes, version 5,
/// command CONNECT (1).
pub open spec fn socks5_connect_ok(b: Seq<u8>) -> bool {
    b.len() >= 7 && b[0] == 5 && b[1] == 1
}

/// Whether the bytes read are a greeting the proxy answers.
pub fn socks5_accepts_greeting(b: &[u8]) -> (r: bool)
    ensures
        r == socks5_greeting_ok(b@),
{
    b.len() >= 3 && b[0] == 5
}

/// Whether the bytes read are a CONNECT request the proxy serves.
pub fn socks5_is_connect(b: &[u8]) -> (r: bool)
    ensures
        r == socks5_connect_ok(b@),
{
    b.len() >= 7 && b[0] == 5 && b[1] == 1
}

/// Reply to a greeting: version 5, no authentication required.
pub fn socks5_no_auth_reply() -> (r: Vec<u8>)
    ensures
        r@ == seq![5u8, 0u8],
{
    let mut r = Vec::new();
    r.push(5u8);
    r.push(0u8);
    assert(r@ =~= seq![5u8, 0u8]);
    r
}

/// Reply to a CONNECT request: success, bound to 0.0.0.0:0.
pub fn socks5_success_reply() -> (r: Vec<u8>)
    ensures
        r@ == seq![5u8, 0u8, 0u8, 1u8, 0u8, 0u8, 0u8, 0u8, 0u8, 0u8],
{
    let mut r = Vec::new();
    r.push(5u8);
    r.push(0u8);
    r.push(0u8);
    r.push(1u8);
    let mut i: usize = 0;
    while i < 6
        invariant
            i <= 6,
            r@ == seq![5u8, 0u8, 0u8, 1u8] + Seq::new(i as nat, |k: int| 0u8),
        decreases 6 - i,
    {
        r.push(0u8);
        i = i + 1;
        assert(r@ =~= seq![5u8, 0u8, 0u8, 1u8] + Seq::new(i as nat, |k: int| 0u8));
    }
    assert(r@ =~= seq![5u8, 0u8, 0u8, 1u8, 0u8, 0u8, 0u8, 0u8, 0u8, 0u8]);
    r
}

/// Why a SOCKS5 destination is refused.
#[derive(Debug, Clone, Copy, PartialEq, Eq, Structural)]
pub enum Socks5Failure {
    ShortIpv4,
    ShortDomain,
    BadDomainText,
    UnsupportedAddressType,
}

/// `a.b.c.d:port`.
pub open spec fn ipv4_dest_text(a: u8, b: u8, c: u8, d: u8, port: u16) -> Seq<char> {
    dec_spec(a as nat) + "."@ + dec_spec(b as nat) + "."@ + dec_spec(c as nat) + "."@ + dec_spec(
        d as nat,
    ) + ":"@ + dec_spec(port as nat)
}

/// The text `a.b.c.d:port`.
pub fn ipv4_dest(a: u8, b: u8, c: u8, d: u8, port: u16) -> (s: String)
    ensures
        s@ == ipv4_dest_text(a, b, c, d, port),
{
    proof {
        reveal_strlit(".");
        reveal_strlit(":");
    }
    let mut s = String::new();
    push_decimal(&mut s, a as u64);
    push_char(&mut s, '.');
    push_decimal(&mut s, b as u64);
    push_char(&mut s, '.');
    push_decimal(&mut s, c as u64);
    push_char(&mut s, '.');
    push_decimal(&mut s, d as u64);
    push_char(&mut s, ':');
    push_decimal(&mut s, port as u64);
    assert(s@ =~= ipv4_dest_text(a, b, c, d, port));
    s
}

/// The destination of a SOCKS5 request (`VER CMD RSV ATYP DST.ADDR DST.PORT`):
/// an IPv4 address (ATYP 1) or a domain name (ATYP 3); IPv6 is not served.
pub open spec fn socks5_dest_spec(b: Seq<u8>) -> Result<Seq<char>, Socks5Failure> {
    if b[3] == 1 {
        if b.len() < 10 {
            Err(Socks5Failure::ShortIpv4)
        } else {
            Ok(ipv4_dest_text(b[4], b[5], b[6], b[7], be16_at(b, 8)))
        }
    } else if b[3] == 3 {
        let n = b[4] as int;
        if b.len() < 5 + n + 2 {
            Err(Socks5Failure::ShortDomain)
        } else if !vstd::utf8::valid_utf8(b.subrange(5, 5 + n)) {
            Err(Socks5Failure::BadDomainText)
        } else {
            Ok(vstd::utf8::decode_utf8(b.subrange(5, 5 + n)) + ":"@ + dec_spec(
                be16_at(b, 5 + n) as nat,
            ))
        }
    } else {
        Err(Socks5Failure::UnsupportedAddressType)
    }
}

/// The message each refusal is reported with; a domain that is not UTF-8
/// is reported with the UTF-8 error's own text.
pub open spec fn socks5_error(b: Seq<u8>, e: Failure, f: Socks5Failure) -> bool {
    e matches Failure::Message(t) && t@ == match f {
        Socks5Failure::ShortIpv4 => "Short IPv4 request"@,
        Socks5Failure::ShortDomain => "Short domain request"@,
        Socks5Failure::BadDomainText => utf8_error_message(b.subrange(5, 5 + b[4] as int)),
        Socks5Failure::UnsupportedAddressType => "Unsupported SOCKS5 address type"@,
    }
}

/// Parses the destination of a SOCKS5 CONNECT request as `host:port`.
pub fn parse_socks5_dest(buf: &[u8]) -> (r: Result<String, Failure>)
    requires
        buf@.len() >= 4,
        buf@[3] == 3 ==> buf@.len() >= 5,
    ensures
        match r {
            Ok(s) => socks5_dest_spec(buf@) == Ok::<Seq<char>, Socks5Failure>(s@),
            Err(e) => socks5_dest_spec(buf@) matches Err(f) && socks5_error(buf@, e, f),
        },
{
    proof {
        reveal_strlit(".");
        reveal_strlit(":");
    }
    if buf[3] == 1 {
        if buf.len() < 10 {
            return Err(Failure::Message(String::from_str("Short IPv4 request")));
        }
        let port = read_be16(buf, 8);
        Ok(ipv4_dest(buf[4], buf[5], buf[6], buf[7], port))
    } else if buf[3] == 3 {
        let n = buf[4] as usize;
        if buf.len() < 5 + n + 2 {
            return Err(Failure::Message(String::from_str("Short domain request")));
        }
        let name = copy_range(buf, 5, 5 + n);
        let mut s = match utf8_text(name.as_slice()) {
            Some(d) => d,
            None => {
                return Err(Failure::Message(utf8_error_text(name.as_slice())));
            },
        };
        push_char(&mut s, ':');
        let port = read_be16(buf, 5 + n);
        push_decimal(&mut s, port as u64);
        assert(s@ =~= vstd::utf8::decode_utf8(buf@.subrange(5, 5 + n as int)) + ":"@ + dec_spec(
            be16_at(buf@, 5 + n as int) as nat,
        ));
        Ok(s)
    } else {
        Err(Failure::Message(String::from_str("Unsupported SOCKS5 address type")))
    }
}

/// The first line of `s` as `str::lines` yields it: up to the first `\n`,
/// without a `\r` right before it; the whole text when there is no `\n`.
pub open spec fn first_line(s: Seq<char>) -> Seq<char> {
    match first_index_from(s, '\n', 0) {
        None => s,
        Some(i) => if i > 0 && s[i - 1] == '\r' {
            s.subrange(0, i - 1)
        } else {
            s.subrange(0, i)
        },
    }
}

/// The target of an HTTP CONNECT request line (`CONNECT host:port ...`):
/// the second space-separated word when the first is `CONNECT`.
pub open spec fn connect_target_spec(line: Seq<char>) -> Option<Seq<char>> {
    match first_index_from(line, ' ', 0) {
        None => None,
        Some(i) => if line.subrange(0, i) != "CONNECT"@ {
            None
        } else {
            match first_index_from(line, ' ', i + 1) {
                None => Some(line.subrange(i + 1, line.len() as int)),
                Some(j) => Some(line.subrange(i + 1, j)),
            }
        },
    }
}

/// The CONNECT target of the request bytes read from a client: an error
/// when they are not UTF-8, none when the request is not a CONNECT (the
/// proxy then answers 405), the `host:port` text otherwise.
pub fn http_connect_target(buf: &[u8]) -> (r: Result<Option<String>, Failure>)
    ensures
        match r {
            Err(e) => !vstd::utf8::valid_utf8(buf@) && (e matches Failure::Message(t) && t@
                == utf8_error_message(buf@)),
            Ok(t) => vstd::utf8::valid_utf8(buf@) && match connect_target_spec(
                first_line(vstd::utf8::decode_utf8(buf@)),
            ) {
                None => t is None,
                Some(x) => t matches Some(s) && s@ == x,
            },
        },
{
    let text = match utf8_text(buf) {
        Some(t) => t,
        None => {
            return Err(Failure::Message(utf8_error_text(buf)));
        },
    };
    let cs = chars_of(text.as_str());
    let end = match find_from(&cs, '\n', 0) {
        None => cs.len(),
        Some(i) => if i > 0 && cs[i - 1] == '\r' {
            i - 1
        } else {
            i
        },
    };
    let line = string_of(&cs, 0, end);
    assert(line@ == first_line(text@));
    let lc = chars_of(line.as_str());
    let sp = match find_from(&lc, ' ', 0) {
        None => {
            return Ok(None);
        },
        Some(i) => i,
    };
    let method = string_of(&lc, 0, sp);
    if !str_eq(method.as_str(), "CONNECT") {
        return Ok(None);
    }
    let stop = match find_from(&lc, ' ', sp + 1) {
        None => lc.len(),
        Some(j) => j,
    };
    Ok(Some(string_of(&lc, sp + 1, stop)))
}

} // verus!
