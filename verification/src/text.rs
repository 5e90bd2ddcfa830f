//! Character-level helpers shared by the wire formats and token code:
//! building strings, decimal numbers, searching characters.
use vstd::prelude::*;

verus! {

// ---------------------------------------------------------------------------
// Strings
// ---------------------------------------------------------------------------

/// Appends one character (`String::push`).
#[verifier::external_body]
pub(crate) fn push_char(s: &mut String, c: char)
    ensures
        final(s)@ == old(s)@.push(c),
{
    s.push(c);
}

/// The characters of `s`, in order.
pub fn chars_of(s: &str) -> (v: Vec<char>)
    ensures
        v@ == s@,
{
    let mut v: Vec<char> = Vec::new();
    for c in it: s.chars()
        invariant
            v@ == it.seq().take(it.index() as int),
    {
        v.push(c);
    }
    v
}

/// Appends `cs[from..to]` to `s`.
pub fn push_chars(s: &mut String, cs: &Vec<char>, from: usize, to: usize)
    requires
        from <= to <= cs.len(),
    ensures
        final(s)@ == old(s)@ + cs@.subrange(from as int, to as int),
{
    let mut i = from;
    while i < to
        invariant
            from <= i <= to <= cs.len(),
            s@ == old(s)@ + cs@.subrange(from as int, i as int),
        decreases to - i,
    {
        push_char(s, cs[i]);
        i = i + 1;
        assert(cs@.subrange(from as int, i as int) =~= cs@.subrange(from as int, i - 1).push(
            cs@[i - 1],
        ));
    }
}

/// Appends all of `t` to `s`.
pub fn push_str(s: &mut String, t: &str)
    ensures
        final(s)@ == old(s)@ + t@,
{
    let cs = chars_of(t);
    push_chars(s, &cs, 0, cs.len());
    assert(cs@.subrange(0, cs@.len() as int) =~= cs@);
}

/// A fresh string holding `cs[from..to]`.
pub fn string_of(cs: &Vec<char>, from: usize, to: usize) -> (s: String)
    requires
        from <= to <= cs.len(),
    ensures
        s@ == cs@.subrange(from as int, to as int),
{
    let mut s = String::new();
    push_chars(&mut s, cs, from, to);
    s
}

/// Whether two character sequences are equal.
pub fn chars_eq(a: &Vec<char>, b: &Vec<char>) -> (r: bool)
    ensures
        r == (a@ == b@),
{
    if a.len() != b.len() {
        return false;
    }
    let mut i: usize = 0;
    while i < a.len()
        invariant
            a.len() == b.len(),
            i <= a.len(),
            forall|j: int| 0 <= j < i ==> a@[j] == b@[j],
        decreases a.len() - i,
    {
        if a[i] != b[i] {
            return false;
        }
        i = i + 1;
    }
    assert(a@ =~= b@);
    true
}

/// Whether `s` and `t` are the same text.
pub fn str_eq(s: &str, t: &str) -> (r: bool)
    ensures
        r == (s@ == t@),
{
    let a = chars_of(s);
    let b = chars_of(t);
    chars_eq(&a, &b)
}

/// Index of the last occurrence of `c` in `cs`.
#[verifier::opaque]
pub open spec fn last_index_of(cs: Seq<char>, c: char) -> Option<int> {
    if exists|i: int| 0 <= i < cs.len() && cs[i] == c {
        Some(choose|i: int| 0 <= i < cs.len() && cs[i] == c && forall|j: int| i < j < cs.len() ==> cs[j] != c)
    } else {
        None
    }
}

/// Index of the first occurrence of `c` in `cs` at or after `from`.
#[verifier::opaque]
pub open spec fn first_index_from(cs: Seq<char>, c: char, from: int) -> Option<int> {
    if exists|i: int| from <= i < cs.len() && cs[i] == c {
        Some(choose|i: int| from <= i < cs.len() && cs[i] == c && forall|j: int| from <= j < i ==> cs[j] != c)
    } else {
        None
    }
}

proof fn lemma_first_witness(cs: Seq<char>, c: char, from: int, i: int)
    requires
        0 <= from <= i < cs.len(),
        cs[i] == c,
    ensures
        exists|k: int| from <= k <= i && cs[k] == c && forall|j: int| from <= j < k ==> cs[j] != c,
    decreases i - from,
{
    if exists|j: int| from <= j < i && cs[j] == c {
        let j = choose|j: int| from <= j < i && cs[j] == c;
        lemma_first_witness(cs, c, from, j);
    } else {
        assert(from <= i <= i && cs[i] == c && forall|j: int| from <= j < i ==> cs[j] != c);
    }
}

/// What `first_index_from` gives: the first `c` at or after `from`, or
/// none when there is none.
pub proof fn lemma_first_index_from(cs: Seq<char>, c: char, from: int)
    requires
        0 <= from,
    ensures
        match first_index_from(cs, c, from) {
            Some(i) => from <= i < cs.len() && cs[i] == c && forall|j: int| from <= j < i ==> cs[j] != c,
            None => forall|j: int| from <= j < cs.len() ==> cs[j] != c,
        },
{
    reveal(first_index_from);
    if exists|i: int| from <= i < cs.len() && cs[i] == c {
        let i = choose|i: int| from <= i < cs.len() && cs[i] == c;
        lemma_first_witness(cs, c, from, i);
    }
}

/// Finds the last `c` in `cs`.
pub fn rfind(cs: &Vec<char>, c: char) -> (r: Option<usize>)
    ensures
        match r {
            Some(i) => i < cs.len() && cs@[i as int] == c && forall|j: int|
                i < j < cs.len() ==> cs@[j] != c,
            None => forall|j: int| 0 <= j < cs.len() ==> cs@[j] != c,
        },
        r matches Some(i) ==> last_index_of(cs@, c) == Some(i as int),
        r is None ==> last_index_of(cs@, c) is None,
{
    reveal(last_index_of);
    let mut i = cs.len();
    while i > 0
        invariant
            i <= cs.len(),
            forall|j: int| i <= j < cs.len() ==> cs@[j] != c,
        decreases i,
    {
        if cs[i - 1] == c {
            let k = i - 1;
            proof {
                reveal(last_index_of);
                assert(exists|x: int| 0 <= x < cs.len() && cs@[x] == c) by {
                    assert(cs@[k as int] == c);
                }
                let w = choose|x: int|
                    0 <= x < cs.len() && cs@[x] == c && forall|j: int| x < j < cs.len() ==> cs@[j] != c;
                assert(w == k as int) by {
                    if w < k {
                        assert(cs@[k as int] != c);
                    }
                    if w > k {
                        assert(cs@[w] != c);
                    }
                }
            }
            return Some(k);
        }
        i = i - 1;
    }
    None
}

/// Finds the first `c` in `cs` at or after `from`.
pub fn find_from(cs: &Vec<char>, c: char, from: usize) -> (r: Option<usize>)
    requires
        from <= cs.len(),
    ensures
        match r {
            Some(i) => from <= i < cs.len() && cs@[i as int] == c && forall|j: int|
                from <= j < i ==> cs@[j] != c,
            None => forall|j: int| from <= j < cs.len() ==> cs@[j] != c,
        },
        r matches Some(i) ==> first_index_from(cs@, c, from as int) == Some(i as int),
        r is None ==> first_index_from(cs@, c, from as int) is None,
{
    reveal(first_index_from);
    let mut i = from;
    while i < cs.len()
        invariant
            from <= i <= cs.len(),
            forall|j: int| from <= j < i ==> cs@[j] != c,
        decreases cs.len() - i,
    {
        if cs[i] == c {
            proof {
                reveal(first_index_from);
                assert(cs@[i as int] == c);
                let w = choose|x: int|
                    from <= x < cs.len() && cs@[x] == c && forall|j: int| from <= j < x ==> cs@[j] != c;
                assert(w == i as int) by {
                    if w < i {
                    }
                    if w > i {
                        assert(cs@[i as int] != c);
                    }
                }
            }
            return Some(i);
        }
        i = i + 1;
    }
    None
}

// ---------------------------------------------------------------------------
// Decimal numbers
// ---------------------------------------------------------------------------

/// The ASCII digit for `d < 10`.
pub open spec fn digit_char(d: nat) -> char {
    (48 + d) as char
}

/// Decimal notation of `n`, without leading zeros (`Display` for integers).
pub open spec fn dec_spec(n: nat) -> Seq<char>
    decreases n,
{
    if n < 10 {
        seq![digit_char(n)]
    } else {
        dec_spec(n / 10).push(digit_char(n % 10))
    }
}

fn digit(d: u64) -> (c: char)
    requires
        d < 10,
    ensures
        c == digit_char(d as nat),
{
    let b: u8 = 48u8 + (d as u8);
    b as char
}

/// Appends the decimal notation of `n` to `s`.
pub fn push_decimal(s: &mut String, n: u64)
    ensures
        final(s)@ == old(s)@ + dec_spec(n as nat),
    decreases n,
{
    if n >= 10 {
        push_decimal(s, n / 10);
    }
    push_char(s, digit(n % 10));
    assert(dec_spec(n as nat) == if n < 10 {
        seq![digit_char(n as nat)]
    } else {
        dec_spec((n / 10) as nat).push(digit_char((n % 10) as nat))
    });
}

/// Decimal notation of every `n` is made of ASCII digits.
pub proof fn lemma_dec_digits(n: nat)
    ensures
        dec_spec(n).len() >= 1,
        forall|i: int| 0 <= i < dec_spec(n).len() ==> is_digit(#[trigger] dec_spec(n)[i]),
    decreases n,
{
    if n >= 10 {
        lemma_dec_digits(n / 10);
    }
}

/// Reading back decimal notation gives the number: `str::parse::<u64>`
/// of the notation of `n` is `n`.
pub proof fn lemma_dec_parse(n: u64)
    ensures
        parse_u64_spec(dec_spec(n as nat)) == Some(n),
{
    lemma_dec_value(n as nat);
    lemma_dec_digits(n as nat);
    let d = dec_spec(n as nat);
    assert(is_digit(d[0]));
    assert(all_digits(d));
}

/// The value of the decimal notation of `n` is `n`.
pub proof fn lemma_dec_value(n: nat)
    ensures
        digits_value(dec_spec(n)) == n,
    decreases n,
{
    if n >= 10 {
        lemma_dec_value(n / 10);
        let s = dec_spec(n / 10);
        assert(dec_spec(n).drop_last() =~= s);
        assert((digit_char(n % 10) as nat) == 48 + n % 10);
        assert(dec_spec(n).last() == digit_char(n % 10));
        assert((n / 10) * 10 + n % 10 == n);
        assert(digits_value(dec_spec(n)) == digits_value(s) * 10 + ((dec_spec(n).last() as nat) - 48) as nat);
    } else {
        assert(dec_spec(n).drop_last() =~= Seq::<char>::empty());
        assert((digit_char(n) as nat) == 48 + n);
        assert(dec_spec(n).last() == digit_char(n));
        assert(digits_value(Seq::<char>::empty()) == 0);
        assert(digits_value(dec_spec(n)) == digits_value(Seq::<char>::empty()) * 10 + ((dec_spec(n).last() as nat) - 48) as nat);
    }
}

/// An ASCII decimal digit.
pub open spec fn is_digit(c: char) -> bool {
    '0' <= c <= '9'
}

/// Value of a run of decimal digits.
pub open spec fn digits_value(cs: Seq<char>) -> nat
    decreases cs.len(),
{
    if cs.len() == 0 {
        0
    } else {
        digits_value(cs.drop_last()) * 10 + ((cs.last() as nat) - 48) as nat
    }
}

/// All characters are ASCII decimal digits.
pub open spec fn all_digits(cs: Seq<char>) -> bool {
    forall|i: int| 0 <= i < cs.len() ==> is_digit(#[trigger] cs[i])
}

/// What `str::parse::<u64>` gives: an optional `+`, then one or more ASCII
/// digits whose value fits in 64 bits.
pub open spec fn parse_u64_spec(cs: Seq<char>) -> Option<u64> {
    let d = if cs.len() > 0 && cs[0] == '+' {
        cs.drop_first()
    } else {
        cs
    };
    if d.len() > 0 && all_digits(d) && digits_value(d) <= u64::MAX as nat {
        Some(digits_value(d) as u64)
    } else {
        None
    }
}

proof fn lemma_digits_value_mono(cs: Seq<char>, k: int)
    requires
        0 <= k <= cs.len(),
        all_digits(cs),
    ensures
        digits_value(cs.take(k)) <= digits_value(cs),
    decreases cs.len() - k,
{
    if k < cs.len() {
        lemma_digits_value_mono(cs, k + 1);
        assert(cs.take(k + 1).drop_last() =~= cs.take(k));
    } else {
        assert(cs.take(k) =~= cs);
    }
}

/// Parses `cs[from..to]` as `str::parse::<u64>` does.
pub fn parse_u64(cs: &Vec<char>, from: usize, to: usize) -> (r: Option<u64>)
    requires
        from <= to <= cs.len(),
    ensures
        r == parse_u64_spec(cs@.subrange(from as int, to as int)),
{
    let ghost all = cs@.subrange(from as int, to as int);
    let mut start = from;
    if from < to && cs[from] == '+' {
        start = from + 1;
    }
    let ghost d = cs@.subrange(start as int, to as int);
    assert(d =~= (if all.len() > 0 && all[0] == '+' {
        all.drop_first()
    } else {
        all
    }));
    if start == to {
        assert(d.len() == 0);
        return None;
    }
    let mut v: u64 = 0;
    let mut i = start;
    while i < to
        invariant
            start <= i <= to <= cs.len(),
            d == cs@.subrange(start as int, to as int),
            all == cs@.subrange(from as int, to as int),
            d == (if all.len() > 0 && all[0] == '+' {
                all.drop_first()
            } else {
                all
            }),
            all_digits(cs@.subrange(start as int, i as int)),
            v as nat == digits_value(cs@.subrange(start as int, i as int)),
        decreases to - i,
    {
        let c = cs[i];
        if !('0' <= c && c <= '9') {
            assert(!all_digits(d)) by {
                assert(d[i - start] == c);
            }
            return None;
        }
        let dv: u64 = ((c as u32) - 48) as u64;
        assert(cs@.subrange(start as int, i + 1).drop_last() =~= cs@.subrange(
            start as int,
            i as int,
        ));
        assert(cs@.subrange(start as int, i + 1).last() == c);
        assert(digits_value(cs@.subrange(start as int, i + 1)) == v * 10 + dv);
        assert(all_digits(cs@.subrange(start as int, i + 1))) by {
            assert forall|k: int| 0 <= k < i + 1 - start implies is_digit(
                #[trigger] cs@.subrange(start as int, i + 1)[k],
            ) by {
                if k < i - start {
                    assert(cs@.subrange(start as int, i + 1)[k] == cs@.subrange(
                        start as int,
                        i as int,
                    )[k]);
                }
            }
        }
        match v.checked_mul(10) {
            None => {
                proof {
                    if all_digits(d) {
                        assert(cs@.subrange(start as int, i + 1) =~= d.take(i + 1 - start));
                        lemma_digits_value_mono(d, i + 1 - start);
                    }
                }
                return None;
            },
            Some(m) => match m.checked_add(dv) {
                None => {
                    proof {
                        if all_digits(d) {
                            assert(cs@.subrange(start as int, i + 1) =~= d.take(i + 1 - start));
                            lemma_digits_value_mono(d, i + 1 - start);
                        }
                    }
                    return None;
                },
                Some(w) => {
                    v = w;
                },
            },
        }
        i = i + 1;
    }
    v.checked_add(0)
}

} // verus!

verus! {

/// Text of a UTF-8 byte string (`std::str::from_utf8`, then an owned copy):
/// present exactly when the bytes are valid UTF-8.
#[verifier::external_body]
pub(crate) fn utf8_text(b: &[u8]) -> (r: Option<String>)
    ensures
        r is Some <==> vstd::utf8::valid_utf8(b@),
        r matches Some(s) ==> s@ == vstd::utf8::decode_utf8(b@),
{
    std::str::from_utf8(b).ok().map(|s| s.to_string())
}

} // verus!

verus! {

/// The text of `std::str::Utf8Error` for bytes that are not UTF-8.
pub uninterp spec fn utf8_error_message(b: Seq<u8>) -> Seq<char>;

/// The message of the error `std::str::from_utf8` reports for `b` (its
/// `Display` text).
#[verifier::external_body]
pub(crate) fn utf8_error_text(b: &[u8]) -> (t: String)
    requires
        !vstd::utf8::valid_utf8(b@),
    ensures
        t@ == utf8_error_message(b@),
{
    match std::str::from_utf8(b) {
        Err(e) => e.to_string(),
        Ok(_) => String::new(),
    }
}

/// Unicode white space (`char::is_whitespace`).
pub open spec fn is_whitespace(c: char) -> bool {
    let u = c as u32;
    (0x09 <= u <= 0x0D) || u == 0x20 || u == 0x85 || u == 0xA0 || u == 0x1680 || (0x2000 <= u
        <= 0x200A) || u == 0x2028 || u == 0x2029 || u == 0x202F || u == 0x205F || u == 0x3000
}

pub(crate) fn is_whitespace_exec(c: char) -> (r: bool)
    ensures
        r == is_whitespace(c),
{
    let u = c as u32;
    (0x09 <= u && u <= 0x0D) || u == 0x20 || u == 0x85 || u == 0xA0 || u == 0x1680 || (0x2000 <= u
        && u <= 0x200A) || u == 0x2028 || u == 0x2029 || u == 0x202F || u == 0x205F || u == 0x3000
}

/// `s` without leading white space.
pub open spec fn trim_start_spec(s: Seq<char>) -> Seq<char>
    decreases s.len(),
{
    if s.len() > 0 && is_whitespace(s[0]) {
        trim_start_spec(s.drop_first())
    } else {
        s
    }
}

/// `s` without trailing white space.
pub open spec fn trim_end_spec(s: Seq<char>) -> Seq<char>
    decreases s.len(),
{
    if s.len() > 0 && is_whitespace(s.last()) {
        trim_end_spec(s.drop_last())
    } else {
        s
    }
}

/// `s` without leading and trailing white space (`str::trim`).
pub open spec fn trim_spec(s: Seq<char>) -> Seq<char> {
    trim_end_spec(trim_start_spec(s))
}

/// Removes leading and trailing white space.
pub fn trim(s: &str) -> (t: String)
    ensures
        t@ == trim_spec(s@),
{
    let cs = chars_of(s);
    let mut i: usize = 0;
    assert(cs@.skip(0) =~= cs@);
    while i < cs.len() && is_whitespace_exec(cs[i])
        invariant
            i <= cs.len(),
            trim_start_spec(cs@) == trim_start_spec(cs@.skip(i as int)),
        decreases cs.len() - i,
    {
        assert(cs@.skip(i as int).drop_first() =~= cs@.skip(i + 1));
        i = i + 1;
    }
    let ghost start = cs@.skip(i as int);
    assert(trim_start_spec(start) == start);
    let mut j: usize = cs.len();
    assert(cs@.subrange(i as int, j as int) =~= start);
    while j > i && is_whitespace_exec(cs[j - 1])
        invariant
            i <= j <= cs.len(),
            trim_end_spec(start) == trim_end_spec(cs@.subrange(i as int, j as int)),
        decreases j - i,
    {
        assert(cs@.subrange(i as int, j as int).drop_last() =~= cs@.subrange(i as int, j - 1));
        j = j - 1;
    }
    string_of(&cs, i, j)
}

} // verus!
