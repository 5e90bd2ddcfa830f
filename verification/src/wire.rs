//! Big-endian integers and byte-range helpers for the binary formats.
use vstd::prelude::*;

verus! {

/// Big-endian bytes of a 32-bit value.
pub open spec fn be32(v: u32) -> Seq<u8> {
    seq![(v >> 24u32) as u8, (v >> 16u32) as u8, (v >> 8u32) as u8, v as u8]
}

/// The 32-bit value of the big-endian bytes `b[i..i + 4]`.
pub open spec fn be32_at(b: Seq<u8>, i: int) -> u32 {
    ((b[i] as u32) << 24u32) | ((b[i + 1] as u32) << 16u32) | ((b[i + 2] as u32) << 8u32) | (b[i
        + 3] as u32)
}

/// Big-endian bytes of a 16-bit value.
pub open spec fn be16(v: u16) -> Seq<u8> {
    seq![(v >> 8u16) as u8, v as u8]
}

/// The 16-bit value of the big-endian bytes `b[i..i + 2]`.
pub open spec fn be16_at(b: Seq<u8>, i: int) -> u16 {
    ((b[i] as u16) << 8u16) | (b[i + 1] as u16)
}

proof fn lemma_u32_bytes(v: u32, b0: u8, b1: u8, b2: u8, b3: u8)
    requires
        b0 == (v >> 24u32) as u8,
        b1 == (v >> 16u32) as u8,
        b2 == (v >> 8u32) as u8,
        b3 == v as u8,
    ensures
        ((b0 as u32) << 24u32) | ((b1 as u32) << 16u32) | ((b2 as u32) << 8u32) | (b3 as u32)
            == v,
{
    assert(((((v >> 24u32) as u8) as u32) << 24u32) | ((((v >> 16u32) as u8) as u32) << 16u32)
        | ((((v >> 8u32) as u8) as u32) << 8u32) | ((v as u8) as u32) == v) by (bit_vector);
}

proof fn lemma_u32_value(b0: u8, b1: u8, b2: u8, b3: u8, v: u32)
    requires
        v == ((b0 as u32) << 24u32) | ((b1 as u32) << 16u32) | ((b2 as u32) << 8u32) | (
        b3 as u32),
    ensures
        b0 == (v >> 24u32) as u8,
        b1 == (v >> 16u32) as u8,
        b2 == (v >> 8u32) as u8,
        b3 == v as u8,
{
    assert(b0 == ((((b0 as u32) << 24u32) | ((b1 as u32) << 16u32) | ((b2 as u32) << 8u32) | (
    b3 as u32)) >> 24u32) as u8) by (bit_vector);
    assert(b1 == ((((b0 as u32) << 24u32) | ((b1 as u32) << 16u32) | ((b2 as u32) << 8u32) | (
    b3 as u32)) >> 16u32) as u8) by (bit_vector);
    assert(b2 == ((((b0 as u32) << 24u32) | ((b1 as u32) << 16u32) | ((b2 as u32) << 8u32) | (
    b3 as u32)) >> 8u32) as u8) by (bit_vector);
    assert(b3 == (((b0 as u32) << 24u32) | ((b1 as u32) << 16u32) | ((b2 as u32) << 8u32) | (
    b3 as u32)) as u8) by (bit_vector);
}

/// Reading back written big-endian bytes gives the value.
pub proof fn lemma_be32_roundtrip(v: u32, b: Seq<u8>, i: int)
    requires
        0 <= i,
        i + 4 <= b.len(),
        b.subrange(i, i + 4) == be32(v),
    ensures
        be32_at(b, i) == v,
{
    assert(b[i] == b.subrange(i, i + 4)[0]);
    assert(b[i + 1] == b.subrange(i, i + 4)[1]);
    assert(b[i + 2] == b.subrange(i, i + 4)[2]);
    assert(b[i + 3] == b.subrange(i, i + 4)[3]);
    lemma_u32_bytes(v, b[i], b[i + 1], b[i + 2], b[i + 3]);
}

/// Writing the value read from four bytes gives the same bytes.
pub proof fn lemma_be32_canonical(b: Seq<u8>, i: int)
    requires
        0 <= i,
        i + 4 <= b.len(),
    ensures
        be32(be32_at(b, i)) == b.subrange(i, i + 4),
{
    lemma_u32_value(b[i], b[i + 1], b[i + 2], b[i + 3], be32_at(b, i));
    assert(be32(be32_at(b, i)) =~= b.subrange(i, i + 4));
}

/// Reading back written big-endian 16-bit bytes gives the value.
pub proof fn lemma_be16_roundtrip(v: u16, b: Seq<u8>, i: int)
    requires
        0 <= i,
        i + 2 <= b.len(),
        b.subrange(i, i + 2) == be16(v),
    ensures
        be16_at(b, i) == v,
{
    assert(b[i] == b.subrange(i, i + 2)[0]);
    assert(b[i + 1] == b.subrange(i, i + 2)[1]);
    let b0 = b[i];
    let b1 = b[i + 1];
    assert(b0 == (v >> 8u16) as u8 && b1 == v as u8 ==> ((b0 as u16) << 8u16) | (b1 as u16) == v)
        by (bit_vector);
}

/// Writing the value read from two bytes gives the same bytes.
pub proof fn lemma_be16_canonical(b: Seq<u8>, i: int)
    requires
        0 <= i,
        i + 2 <= b.len(),
    ensures
        be16(be16_at(b, i)) == b.subrange(i, i + 2),
{
    let b0 = b[i];
    let b1 = b[i + 1];
    assert(b0 == ((((b0 as u16) << 8u16) | (b1 as u16)) >> 8u16) as u8) by (bit_vector);
    assert(b1 == (((b0 as u16) << 8u16) | (b1 as u16)) as u8) by (bit_vector);
    assert(be16(be16_at(b, i)) =~= b.subrange(i, i + 2));
}

/// Appends the big-endian bytes of `v`.
pub fn push_be32(out: &mut Vec<u8>, v: u32)
    ensures
        final(out)@ == old(out)@ + be32(v),
{
    out.push((v >> 24u32) as u8);
    out.push((v >> 16u32) as u8);
    out.push((v >> 8u32) as u8);
    out.push(v as u8);
    assert(out@ =~= old(out)@ + be32(v));
}

/// Appends the big-endian bytes of `v`.
pub fn push_be16(out: &mut Vec<u8>, v: u16)
    ensures
        final(out)@ == old(out)@ + be16(v),
{
    out.push((v >> 8u16) as u8);
    out.push(v as u8);
    assert(out@ =~= old(out)@ + be16(v));
}

/// Reads the big-endian 32-bit value at `b[i..i + 4]`.
pub fn read_be32(b: &[u8], i: usize) -> (v: u32)
    requires
        i + 4 <= b@.len(),
    ensures
        v == be32_at(b@, i as int),
{
    ((b[i] as u32) << 24u32) | ((b[i + 1] as u32) << 16u32) | ((b[i + 2] as u32) << 8u32) | (b[i
        + 3] as u32)
}

/// Reads the big-endian 16-bit value at `b[i..i + 2]`.
pub fn read_be16(b: &[u8], i: usize) -> (v: u16)
    requires
        i + 2 <= b@.len(),
    ensures
        v == be16_at(b@, i as int),
{
    ((b[i] as u16) << 8u16) | (b[i + 1] as u16)
}

/// Appends `b[from..to]` to `out`.
pub fn extend_range(out: &mut Vec<u8>, b: &[u8], from: usize, to: usize)
    requires
        from <= to <= b@.len(),
    ensures
        final(out)@ == old(out)@ + b@.subrange(from as int, to as int),
{
    let mut i = from;
    while i < to
        invariant
            from <= i <= to <= b@.len(),
            out@ == old(out)@ + b@.subrange(from as int, i as int),
        decreases to - i,
    {
        out.push(b[i]);
        i = i + 1;
        assert(out@ =~= old(out)@ + b@.subrange(from as int, i as int));
    }
}

/// A fresh vector holding `b[from..to]`.
pub fn copy_range(b: &[u8], from: usize, to: usize) -> (v: Vec<u8>)
    requires
        from <= to <= b@.len(),
    ensures
        v@ == b@.subrange(from as int, to as int),
{
    let mut v = Vec::new();
    extend_range(&mut v, b, from, to);
    assert(v@ =~= b@.subrange(from as int, to as int));
    v
}

/// `n` zero bytes.
pub fn zeros(n: usize) -> (v: Vec<u8>)
    ensures
        v@ == Seq::new(n as nat, |i: int| 0u8),
{
    let mut v = Vec::new();
    let mut i: usize = 0;
    while i < n
        invariant
            i <= n,
            v@ == Seq::new(i as nat, |k: int| 0u8),
        decreases n - i,
    {
        v.push(0u8);
        i = i + 1;
        assert(v@ =~= Seq::new(i as nat, |k: int| 0u8));
    }
    v
}

} // verus!
