//! Lowercase hexadecimal encoding and the lenient decoding used for token
//! signatures.
use vstd::prelude::*;
use vstd::string::StringSliceAdditionalSpecFns;

use crate::text::{chars_of, push_char};

verus! {

/// Lowercase hexadecimal digit for `n < 16`.
pub open spec fn hex_char(n: nat) -> char {
    if n < 10 {
        (48 + n) as char
    } else {
        (87 + n) as char
    }
}

/// Two lowercase hexadecimal digits for a byte (`format!("{:02x}", b)`).
pub open spec fn hex_byte_spec(b: u8) -> Seq<char> {
    seq![hex_char((b / 16) as nat), hex_char((b % 16) as nat)]
}

/// Lowercase hexadecimal notation of a byte string, two digits per byte.
pub open spec fn hex_encode_spec(bytes: Seq<u8>) -> Seq<char>
    decreases bytes.len(),
{
    if bytes.len() == 0 {
        seq![]
    } else {
        hex_encode_spec(bytes.drop_last()) + hex_byte_spec(bytes.last())
    }
}

fn hex_digit_char(n: u8) -> (c: char)
    requires
        n < 16,
    ensures
        c == hex_char(n as nat),
{
    if n < 10 {
        (48u8 + n) as char
    } else {
        (87u8 + n) as char
    }
}

/// Appends the two lowercase hexadecimal digits of `b`.
pub fn push_hex_byte(s: &mut String, b: u8)
    ensures
        final(s)@ == old(s)@ + hex_byte_spec(b),
{
    push_char(s, hex_digit_char(b / 16));
    push_char(s, hex_digit_char(b % 16));
    assert(s@ =~= old(s)@ + hex_byte_spec(b));
}

/// Value of a hexadecimal digit (either case).
pub open spec fn hex_val(c: char) -> Option<u8> {
    if '0' <= c <= '9' {
        Some(((c as u32) - 48) as u8)
    } else if 'a' <= c <= 'f' {
        Some(((c as u32) - 87) as u8)
    } else if 'A' <= c <= 'F' {
        Some(((c as u32) - 55) as u8)
    } else {
        None
    }
}

/// The byte written by two hexadecimal digits (either case); none when
/// either character is not a hexadecimal digit.
pub open spec fn hex_pair(a: char, b: char) -> Option<u8> {
    match (hex_val(a), hex_val(b)) {
        (Some(x), Some(y)) => Some((x * 16 + y) as u8),
        _ => None,
    }
}

/// An ASCII character.
pub open spec fn is_ascii_char(c: char) -> bool {
    (c as u32) < 0x80
}

/// Width of `c` in UTF-8 is two bytes.
pub open spec fn is_utf8_width2(c: char) -> bool {
    0x80 <= (c as u32) < 0x800
}

/// Walks a string two bytes at a time as hex decoding does.
/// `None`: a two-byte slice would cut a character (a panic in the slicing);
/// `Some(None)`: a slice is not a hexadecimal byte;
/// `Some(Some(b))`: every slice decoded, giving `b`.
pub open spec fn hex_walk(cs: Seq<char>) -> Option<Option<Seq<u8>>>
    decreases cs.len(),
{
    if cs.len() == 0 {
        Some(Some(seq![]))
    } else if is_ascii_char(cs[0]) {
        if cs.len() < 2 || !is_ascii_char(cs[1]) {
            None
        } else {
            match hex_pair(cs[0], cs[1]) {
                None => Some(None),
                Some(v) => match hex_walk(cs.skip(2)) {
                    Some(Some(rest)) => Some(Some(seq![v] + rest)),
                    other => other,
                },
            }
        }
    } else if is_utf8_width2(cs[0]) {
        Some(None)
    } else {
        None
    }
}

/// Outcome of hex decoding the string with characters `cs`
/// (`None`: the decoding would panic).
#[verifier::opaque]
pub open spec fn hex_decode_outcome(cs: Seq<char>) -> Option<Option<Seq<u8>>> {
    if vstd::utf8::encode_utf8(cs).len() % 2 != 0 {
        Some(None)
    } else {
        hex_walk(cs)
    }
}

/// Hex decoding of `s` does not panic.
pub open spec fn hex_decodable(s: Seq<char>) -> bool {
    hex_decode_outcome(s) is Some
}

/// Lowercase hexadecimal encoding of a byte string.
pub fn encode(bytes: Vec<u8>) -> (s: String)
    ensures
        s@ == hex_encode_spec(bytes@),
{
    let mut s = String::new();
    let mut i: usize = 0;
    while i < bytes.len()
        invariant
            i <= bytes.len(),
            s@ == hex_encode_spec(bytes@.take(i as int)),
        decreases bytes.len() - i,
    {
        push_hex_byte(&mut s, bytes[i]);
        assert(bytes@.take(i + 1).drop_last() =~= bytes@.take(i as int));
        i = i + 1;
    }
    assert(bytes@.take(bytes.len() as int) =~= bytes@);
    s
}

fn hex_val_exec(c: char) -> (r: Option<u8>)
    ensures
        r == hex_val(c),
{
    if '0' <= c && c <= '9' {
        Some(((c as u32) - 48) as u8)
    } else if 'a' <= c && c <= 'f' {
        Some(((c as u32) - 87) as u8)
    } else if 'A' <= c && c <= 'F' {
        Some(((c as u32) - 55) as u8)
    } else {
        None
    }
}

fn hex_pair_exec(a: char, b: char) -> (r: Option<u8>)
    ensures
        r == hex_pair(a, b),
{
    match (hex_val_exec(a), hex_val_exec(b)) {
        (Some(x), Some(y)) => Some(x * 16 + y),
        _ => None,
    }
}

/// A hexadecimal digit (either case).
pub open spec fn is_hex_digit(c: char) -> bool {
    hex_val(c) is Some
}

/// Every character is a hexadecimal digit.
pub open spec fn all_hex_digits(cs: Seq<char>) -> bool {
    forall|i: int| 0 <= i < cs.len() ==> is_hex_digit(#[trigger] cs[i])
}

proof fn lemma_hex_walk_ok(cs: Seq<char>)
    ensures
        (hex_walk(cs) matches Some(Some(_))) <==> (cs.len() % 2 == 0 && all_hex_digits(cs)),
    decreases cs.len(),
{
    if cs.len() > 0 {
        if is_ascii_char(cs[0]) && cs.len() >= 2 && is_ascii_char(cs[1]) {
            let t = cs.skip(2);
            lemma_hex_walk_ok(t);
            if all_hex_digits(cs) {
                assert forall|i: int| 0 <= i < t.len() implies is_hex_digit(#[trigger] t[i]) by {
                    assert(t[i] == cs[i + 2]);
                }
            }
            if hex_pair(cs[0], cs[1]) is Some && all_hex_digits(t) {
                assert forall|i: int| 0 <= i < cs.len() implies is_hex_digit(#[trigger] cs[i]) by {
                    if i >= 2 {
                        assert(cs[i] == t[i - 2]);
                    }
                }
            }
            if hex_pair(cs[0], cs[1]) is None {
                assert(!is_hex_digit(cs[0]) || !is_hex_digit(cs[1]));
            }
        } else {
            if cs.len() >= 2 && is_ascii_char(cs[0]) {
                assert(!is_hex_digit(cs[1]));
            }
            if !is_ascii_char(cs[0]) {
                assert(!is_hex_digit(cs[0]));
            }
        }
    }
}

/// Hex decoding succeeds exactly on strings of an even number of
/// hexadecimal digits.
pub proof fn lemma_hex_decode_ok(cs: Seq<char>)
    ensures
        (hex_decode_outcome(cs) matches Some(Some(_))) <==> (cs.len() % 2 == 0 && all_hex_digits(cs)),
{
    reveal(hex_decode_outcome);
    lemma_hex_walk_ok(cs);
    if all_hex_digits(cs) {
        assert(vstd::utf8::is_ascii_chars(cs)) by {
            assert forall|i: int| 0 <= i < cs.len() implies '\0' <= #[trigger] cs[i] <= '\u{7f}' by {
                assert(is_hex_digit(cs[i]));
            }
        }
        vstd::utf8::is_ascii_chars_encode_utf8(cs);
    }
}

/// Whether hex decoding of `s` runs to an answer (`hex_decodable`): false
/// exactly when a two-byte slice would cut a character.
pub fn is_hex_decodable(s: &str) -> (r: bool)
    ensures
        r == hex_decodable(s@),
{
    reveal(hex_decode_outcome);
    let bytes = s.as_bytes();
    assert(bytes@ == vstd::utf8::encode_utf8(s@));
    if bytes.len() % 2 != 0 {
        return true;
    }
    let cs = chars_of(s);
    assert(cs@.skip(0) =~= cs@);
    let mut i: usize = 0;
    while i < cs.len()
        invariant
            i <= cs.len(),
            cs@ == s@,
            vstd::utf8::encode_utf8(s@).len() % 2 == 0,
            (hex_walk(cs@) is Some) == (hex_walk(cs@.skip(i as int)) is Some),
        decreases cs.len() - i,
    {
        reveal(hex_decode_outcome);
        let ghost tail = cs@.skip(i as int);
        assert(tail[0] == cs@[i as int]);
        let c0 = cs[i];
        if (c0 as u32) < 0x80 {
            if i + 1 >= cs.len() || (cs[i + 1] as u32) >= 0x80 {
                assert(hex_walk(tail) is None);
                return false;
            }
            assert(tail[1] == cs@[i + 1]);
            match hex_pair_exec(c0, cs[i + 1]) {
                None => {
                    return true;
                },
                Some(_) => {
                    assert(tail.skip(2) =~= cs@.skip(i + 2));
                    i = i + 2;
                },
            }
        } else {
            return (c0 as u32) < 0x800;
        }
    }
    assert(cs@.skip(i as int) =~= Seq::<char>::empty());
    true
}

/// Hexadecimal decoding, two bytes of `s` at a time; odd byte length and any
/// slice that is not a hexadecimal byte are errors.
pub fn decode(s: &str) -> (r: Result<Vec<u8>, ()>)
    requires
        hex_decodable(s@),
    ensures
        match r {
            Ok(v) => hex_decode_outcome(s@) == Some(Some(v@)),
            Err(_) => hex_decode_outcome(s@) == Some(None::<Seq<u8>>),
        },
        r is Ok <==> (s@.len() % 2 == 0 && all_hex_digits(s@)),
{
    proof {
        lemma_hex_decode_ok(s@);
    }
    reveal(hex_decode_outcome);
    let bytes = s.as_bytes();
    assert(bytes@ == vstd::utf8::encode_utf8(s@));
    if bytes.len() % 2 != 0 {
        return Err(());
    }
    let cs = chars_of(s);
    assert(cs@.skip(0) =~= cs@);
    assert(forall|rest: Seq<u8>| Seq::<u8>::empty() + rest == rest) by {
        assert forall|rest: Seq<u8>| Seq::<u8>::empty() + rest == rest by {
            assert(Seq::<u8>::empty() + rest =~= rest);
        }
    }
    let mut out: Vec<u8> = Vec::new();
    let mut i: usize = 0;
    while i < cs.len()
        invariant
            i <= cs.len(),
            cs@ == s@,
            hex_walk(cs@) is Some,
            hex_walk(cs@) == match hex_walk(cs@.skip(i as int)) {
                Some(Some(rest)) => Some(Some(out@ + rest)),
                other => other,
            },
        decreases cs.len() - i,
    {
        reveal(hex_decode_outcome);
        let ghost tail = cs@.skip(i as int);
        assert(tail[0] == cs@[i as int]);
        let c0 = cs[i];
        if (c0 as u32) < 0x80 {
            if i + 1 >= cs.len() || (cs[i + 1] as u32) >= 0x80 {
                assert(false);
                return Err(());
            }
            assert(tail[1] == cs@[i + 1]);
            match hex_pair_exec(c0, cs[i + 1]) {
                None => {
                    return Err(());
                },
                Some(v) => {
                    assert(tail.skip(2) =~= cs@.skip(i + 2));
                    proof {
                        match hex_walk(cs@.skip(i + 2)) {
                            Some(Some(rest)) => {
                                assert(out@.push(v) + rest =~= out@ + (seq![v] + rest));
                            },
                            _ => {},
                        }
                    }
                    out.push(v);
                    i = i + 2;
                },
            }
        } else {
            return Err(());
        }
    }
    assert(cs@.skip(i as int) =~= Seq::<char>::empty());
    assert(out@ + Seq::<u8>::empty() =~= out@);
    Ok(out)
}

/// Hexadecimal notation is made of ASCII characters.
proof fn lemma_hex_encode_ascii(bytes: Seq<u8>)
    ensures
        vstd::utf8::is_ascii_chars(hex_encode_spec(bytes)),
        hex_encode_spec(bytes).len() == 2 * bytes.len(),
    decreases bytes.len(),
{
    if bytes.len() > 0 {
        lemma_hex_encode_ascii(bytes.drop_last());
        let a = hex_encode_spec(bytes.drop_last());
        let b = hex_byte_spec(bytes.last());
        assert forall|i: int| 0 <= i < (a + b).len() implies '\0' <= #[trigger] (a + b)[i]
            <= '\u{7f}' by {
            if i < a.len() {
                assert((a + b)[i] == a[i]);
            }
        }
    }
}

proof fn lemma_hex_walk_encode(bytes: Seq<u8>)
    ensures
        hex_walk(hex_encode_spec(bytes)) == Some(Some(bytes)),
    decreases bytes.len(),
{
    if bytes.len() > 0 {
        let b0 = bytes[0];
        let rest = bytes.drop_first();
        lemma_hex_encode_front(bytes);
        lemma_hex_walk_encode(rest);
        let cs = hex_encode_spec(bytes);
        assert(cs.skip(2) =~= hex_encode_spec(rest));
        assert(hex_pair(cs[0], cs[1]) == Some(b0));
        assert(seq![b0] + rest =~= bytes);
    } else {
        assert(hex_encode_spec(bytes) =~= Seq::<char>::empty());
    }
}

proof fn lemma_hex_encode_front(bytes: Seq<u8>)
    requires
        bytes.len() > 0,
    ensures
        hex_encode_spec(bytes) =~= hex_byte_spec(bytes[0]) + hex_encode_spec(bytes.drop_first()),
    decreases bytes.len(),
{
    if bytes.len() == 1 {
        assert(bytes.drop_last() =~= Seq::<u8>::empty());
        assert(bytes.drop_first() =~= Seq::<u8>::empty());
        assert(hex_encode_spec(Seq::<u8>::empty()) =~= Seq::<char>::empty());
    } else {
        lemma_hex_encode_front(bytes.drop_last());
        assert(bytes.drop_last().drop_first() =~= bytes.drop_first().drop_last());
        assert(bytes.drop_last()[0] == bytes[0]);
        assert(bytes.drop_first().last() == bytes.last());
    }
}

/// Hexadecimal notation has two characters per byte.
pub proof fn lemma_hex_encode_len(bytes: Seq<u8>)
    ensures
        hex_encode_spec(bytes).len() == 2 * bytes.len(),
{
    lemma_hex_encode_ascii(bytes);
}

/// A lowercase hexadecimal digit.
pub open spec fn is_lower_hex_char(c: char) -> bool {
    ('0' <= c <= '9') || ('a' <= c <= 'f')
}

/// Hexadecimal notation is made of lowercase hexadecimal digits.
pub proof fn lemma_hex_encode_chars(bytes: Seq<u8>)
    ensures
        forall|i: int| 0 <= i < hex_encode_spec(bytes).len() ==> is_lower_hex_char(#[trigger] hex_encode_spec(bytes)[i]),
    decreases bytes.len(),
{
    if bytes.len() > 0 {
        lemma_hex_encode_chars(bytes.drop_last());
        let a = hex_encode_spec(bytes.drop_last());
        let b = hex_byte_spec(bytes.last());
        assert forall|i: int| 0 <= i < (a + b).len() implies is_lower_hex_char(#[trigger] (a + b)[i]) by {
            if i < a.len() {
                assert((a + b)[i] == a[i]);
            }
        }
    }
}

/// Decoding what encoding produced gives back the bytes: hex decoding of
/// `hex_encode_spec(b)` does not panic and yields exactly `b`.
pub proof fn lemma_hex_roundtrip(bytes: Seq<u8>)
    ensures
        hex_decode_outcome(hex_encode_spec(bytes)) == Some(Some(bytes)),
{
    reveal(hex_decode_outcome);
    lemma_hex_encode_ascii(bytes);
    vstd::utf8::is_ascii_chars_encode_utf8(hex_encode_spec(bytes));
    assert(vstd::utf8::encode_utf8(hex_encode_spec(bytes)).len() % 2 == 0) by (nonlinear_arith)
        requires
            vstd::utf8::encode_utf8(hex_encode_spec(bytes)).len() == 2 * bytes.len(),
    ;
    lemma_hex_walk_encode(bytes);
}

} // verus!
