//! The exit policy: which destinations a node relays to.
//!
//! Each allowed destination is either an IPv4 block in CIDR notation
//! (`10.0.0.0/8`), which admits the addresses whose first bits match, or a
//! hostname, which admits exactly that host. An empty list admits every
//! destination. A destination is `host:port`; its host is what precedes the
//! last `:`.
use vstd::prelude::*;
use vstd::arithmetic::power2::{lemma2_to64, pow2};
use vstd::bits::lemma_u32_shr_is_div;

use crate::text::{all_digits, chars_of, digits_value, find_from, first_index_from, last_index_of, rfind, str_eq, string_of};

verus! {

/// A decimal number of 1 to `max_len` digits, without a leading zero
/// (unless it is `0`), of value at most `max`.
pub open spec fn bounded_decimal(s: Seq<char>, max_len: nat, max: nat) -> Option<nat> {
    if 1 <= s.len() <= max_len && all_digits(s) && (s.len() == 1 || s[0] != '0') && digits_value(s)
        <= max {
        Some(digits_value(s))
    } else {
        None
    }
}

/// The IPv4 address written `a.b.c.d` (four decimal octets), as a 32-bit
/// number.
pub open spec fn ipv4_spec(s: Seq<char>) -> Option<u32> {
    match first_index_from(s, '.', 0) {
        None => None,
        Some(a) => match first_index_from(s, '.', a + 1) {
            None => None,
            Some(b) => match first_index_from(s, '.', b + 1) {
                None => None,
                Some(c) => if first_index_from(s, '.', c + 1) is Some {
                    None
                } else {
                    match (
                        bounded_decimal(s.subrange(0, a), 3, 255),
                        bounded_decimal(s.subrange(a + 1, b), 3, 255),
                        bounded_decimal(s.subrange(b + 1, c), 3, 255),
                        bounded_decimal(s.subrange(c + 1, s.len() as int), 3, 255),
                    ) {
                        (Some(x), Some(y), Some(z), Some(w)) => Some(
                            (x * 16777216 + y * 65536 + z * 256 + w) as u32,
                        ),
                        _ => None,
                    }
                },
            },
        },
    }
}

/// The IPv4 block written `address/prefix` (prefix length 0 to 32).
pub open spec fn cidr_spec(s: Seq<char>) -> Option<(u32, nat)> {
    match first_index_from(s, '/', 0) {
        None => None,
        Some(k) => match (
            ipv4_spec(s.subrange(0, k)),
            bounded_decimal(s.subrange(k + 1, s.len() as int), 2, 32),
        ) {
            (Some(n), Some(p)) => Some((n, p)),
            _ => None,
        },
    }
}

/// The first `p` bits of `a` and `n` agree.
pub open spec fn same_prefix(a: u32, n: u32, p: nat) -> bool {
    p == 0 || (a >> ((32 - p) as u32)) == (n >> ((32 - p) as u32))
}

/// A CIDR rule `n/p` admits exactly the IPv4 addresses that agree with `n`
/// in their first `p` bits: the two numbers have the same quotient by
/// 2^(32-p). (For `p == 0` every address shares the quotient 0.)
pub proof fn lemma_cidr_admits_same_leading_bits(rule: Seq<char>, host: Seq<char>)
    requires
        cidr_spec(rule) is Some,
        ipv4_spec(host) is Some,
    ensures
        ({
            let (n, p) = cidr_spec(rule)->0;
            let a = ipv4_spec(host)->0;
            &&& p <= 32
            &&& rule_admits(rule, host) <==> (a as nat) / pow2((32 - p) as nat) == (n as nat) / pow2(
                (32 - p) as nat,
            )
        }),
{
    let (n, p) = cidr_spec(rule)->0;
    let a = ipv4_spec(host)->0;
    assert(p <= 32);
    if p == 0 {
        lemma2_to64();
        assert((a as nat) / 0x100000000nat == 0) by (nonlinear_arith)
            requires
                (a as nat) < 0x100000000nat,
        ;
        assert((n as nat) / 0x100000000nat == 0) by (nonlinear_arith)
            requires
                (n as nat) < 0x100000000nat,
        ;
    } else {
        let sh: u32 = (32 - p) as u32;
        lemma_u32_shr_is_div(a, sh);
        lemma_u32_shr_is_div(n, sh);
    }
}

/// The host of a `host:port` destination: what precedes the last `:`.
pub open spec fn dest_host(dest: Seq<char>) -> Seq<char> {
    match last_index_of(dest, ':') {
        Some(i) => dest.subrange(0, i),
        None => dest,
    }
}

/// A rule admits a host: a CIDR block admits the IPv4 addresses in it, any
/// other rule is a hostname and admits that host only.
pub open spec fn rule_admits(rule: Seq<char>, host: Seq<char>) -> bool {
    match cidr_spec(rule) {
        Some((n, p)) => match ipv4_spec(host) {
            Some(a) => same_prefix(a, n, p),
            None => false,
        },
        None => host == rule,
    }
}

/// A destination is allowed when no rule is configured, or when some rule
/// admits its host.
pub open spec fn destination_allowed(dest: Seq<char>, rules: Seq<String>) -> bool {
    rules.len() == 0 || exists|i: int| 0 <= i < rules.len() && rule_admits(#[trigger] rules[i]@, dest_host(dest))
}

/// Reads `cs[from..to]` as `bounded_decimal` with `max_len` at most 3.
fn parse_bounded(cs: &Vec<char>, from: usize, to: usize, max_len: usize, max: u32) -> (r: Option<u32>)
    requires
        from <= to <= cs.len(),
        max_len <= 3,
    ensures
        match bounded_decimal(cs@.subrange(from as int, to as int), max_len as nat, max as nat) {
            Some(v) => r == Some(v as u32),
            None => r is None,
        },
{
    let ghost s = cs@.subrange(from as int, to as int);
    if to - from < 1 || to - from > max_len {
        return None;
    }
    let mut v: u32 = 0;
    let mut i = from;
    assert(cs@.subrange(from as int, from as int) =~= Seq::<char>::empty());
    while i < to
        invariant
            from <= i <= to <= cs.len(),
            to - from <= 3,
            s == cs@.subrange(from as int, to as int),
            all_digits(cs@.subrange(from as int, i as int)),
            v == digits_value(cs@.subrange(from as int, i as int)),
            i - from == 0 ==> v == 0,
            i - from == 1 ==> v < 10,
            i - from == 2 ==> v < 100,
            i - from == 3 ==> v < 1000,
        decreases to - i,
    {
        let c = cs[i];
        assert(s[i - from] == c);
        if !('0' <= c && c <= '9') {
            assert(!all_digits(s));
            return None;
        }
        let d = (c as u32) - 48;
        let ghost pre = cs@.subrange(from as int, i as int);
        let ghost next = cs@.subrange(from as int, i + 1);
        assert(next.drop_last() =~= pre);
        assert(next.last() == c);
        v = v * 10 + d;
        i = i + 1;
    }
    assert(cs@.subrange(from as int, i as int) == s);
    if to - from > 1 && cs[from] == '0' {
        assert(s[0] == cs@[from as int]);
        return None;
    }
    if v > max {
        return None;
    }
    Some(v)
}

/// The characters of `cs[from..to]` as a vector of their own.
fn char_range(cs: &Vec<char>, from: usize, to: usize) -> (v: Vec<char>)
    requires
        from <= to <= cs.len(),
    ensures
        v@ == cs@.subrange(from as int, to as int),
{
    let s = string_of(cs, from, to);
    chars_of(s.as_str())
}

/// Reads an IPv4 address as `ipv4_spec`.
pub fn parse_ipv4(cs: &Vec<char>) -> (r: Option<u32>)
    ensures
        r == ipv4_spec(cs@),
{
    let a = match find_from(cs, '.', 0) {
        None => {
            return None;
        },
        Some(a) => a,
    };
    let b = match find_from(cs, '.', a + 1) {
        None => {
            return None;
        },
        Some(b) => b,
    };
    let c = match find_from(cs, '.', b + 1) {
        None => {
            return None;
        },
        Some(c) => c,
    };
    if find_from(cs, '.', c + 1).is_some() {
        return None;
    }
    let x = parse_bounded(cs, 0, a, 3, 255);
    let y = parse_bounded(cs, a + 1, b, 3, 255);
    let z = parse_bounded(cs, b + 1, c, 3, 255);
    let w = parse_bounded(cs, c + 1, cs.len(), 3, 255);
    match (x, y, z, w) {
        (Some(x), Some(y), Some(z), Some(w)) => Some(x * 16777216 + y * 65536 + z * 256 + w),
        _ => None,
    }
}

/// Reads an IPv4 block as `cidr_spec`.
pub fn parse_cidr(cs: &Vec<char>) -> (r: Option<(u32, u32)>)
    ensures
        match cidr_spec(cs@) {
            Some((n, p)) => r == Some((n, p as u32)),
            None => r is None,
        },
{
    let k = match find_from(cs, '/', 0) {
        None => {
            return None;
        },
        Some(k) => k,
    };
    let head = char_range(cs, 0, k);
    let n = parse_ipv4(&head);
    let p = parse_bounded(cs, k + 1, cs.len(), 2, 32);
    match (n, p) {
        (Some(n), Some(p)) => Some((n, p)),
        _ => None,
    }
}

/// Whether `rule` admits `host` (`rule_admits`).
pub fn rule_admits_host(rule: &str, host: &Vec<char>) -> (r: bool)
    ensures
        r == rule_admits(rule@, host@),
{
    let rc = chars_of(rule);
    match parse_cidr(&rc) {
        Some((n, p)) => match parse_ipv4(host) {
            Some(a) => {
                if p == 0 {
                    true
                } else {
                    let sh: u32 = 32 - p;
                    (a >> sh) == (n >> sh)
                }
            },
            None => false,
        },
        None => {
            let h = string_of(host, 0, host.len());
            assert(host@.subrange(0, host@.len() as int) =~= host@);
            str_eq(h.as_str(), rule)
        },
    }
}

/// Whether `dest` (`host:port`) is permitted by the allowed destinations
/// `rules`.
pub fn destination_allowed_by(dest: &str, rules: &Vec<String>) -> (r: bool)
    ensures
        r == destination_allowed(dest@, rules@),
{
    if rules.len() == 0 {
        return true;
    }
    let d = chars_of(dest);
    let host = match rfind(&d, ':') {
        Some(i) => char_range(&d, 0, i),
        None => d,
    };
    assert(host@ == dest_host(dest@));
    let mut i: usize = 0;
    while i < rules.len()
        invariant
            i <= rules.len(),
            host@ == dest_host(dest@),
            forall|j: int| 0 <= j < i ==> !rule_admits(#[trigger] rules@[j]@, dest_host(dest@)),
        decreases rules.len() - i,
    {
        if rule_admits_host(rules[i].as_str(), &host) {
            assert(rule_admits(rules@[i as int]@, dest_host(dest@)));
            return true;
        }
        i = i + 1;
    }
    false
}

} // verus!
