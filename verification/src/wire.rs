//! Little-endian byte layout of the integer fields that make up the wire
//! structures, with the encoders that append them to a buffer and the
//! decoders that read them back.
use vstd::prelude::*;

verus! {

/// The two bytes of `x`, least significant first.
pub open spec fn le16(x: u16) -> Seq<u8> {
    seq![(x & 0xff) as u8, ((x >> 8) & 0xff) as u8]
}

/// The four bytes of `x`, least significant first.
pub open spec fn le32(x: u32) -> Seq<u8> {
    seq![
        (x & 0xff) as u8,
        ((x >> 8) & 0xff) as u8,
        ((x >> 16) & 0xff) as u8,
        ((x >> 24) & 0xff) as u8,
    ]
}

/// The eight bytes of `x`, least significant first.
pub open spec fn le64(x: u64) -> Seq<u8> {
    seq![
        (x & 0xff) as u8,
        ((x >> 8) & 0xff) as u8,
        ((x >> 16) & 0xff) as u8,
        ((x >> 24) & 0xff) as u8,
        ((x >> 32) & 0xff) as u8,
        ((x >> 40) & 0xff) as u8,
        ((x >> 48) & 0xff) as u8,
        ((x >> 56) & 0xff) as u8,
    ]
}

/// The value whose little-endian bytes are `b[0..2]`.
pub open spec fn from_le16(b: Seq<u8>) -> u16 {
    (b[0] as u16) | ((b[1] as u16) << 8)
}

/// The value whose little-endian bytes are `b[0..4]`.
pub open spec fn from_le32(b: Seq<u8>) -> u32 {
    (b[0] as u32) | ((b[1] as u32) << 8) | ((b[2] as u32) << 16) | ((b[3] as u32) << 24)
}

/// The value whose little-endian bytes are `b[0..8]`.
pub open spec fn from_le64(b: Seq<u8>) -> u64 {
    (b[0] as u64) | ((b[1] as u64) << 8) | ((b[2] as u64) << 16) | ((b[3] as u64) << 24) | ((
    b[4] as u64) << 32) | ((b[5] as u64) << 40) | ((b[6] as u64) << 48) | ((b[7] as u64) << 56)
}

/// Concatenated little-endian bytes of a sequence of `u32`.
pub open spec fn le32_seq(s: Seq<u32>) -> Seq<u8>
    decreases s.len(),
{
    if s.len() == 0 {
        Seq::empty()
    } else {
        le32_seq(s.drop_last()) + le32(s.last())
    }
}

/// Concatenated little-endian bytes of a sequence of `u64`.
pub open spec fn le64_seq(s: Seq<u64>) -> Seq<u8>
    decreases s.len(),
{
    if s.len() == 0 {
        Seq::empty()
    } else {
        le64_seq(s.drop_last()) + le64(s.last())
    }
}

pub proof fn lemma_le32_seq_len(s: Seq<u32>)
    ensures
        le32_seq(s).len() == 4 * s.len(),
    decreases s.len(),
{
    if s.len() > 0 {
        lemma_le32_seq_len(s.drop_last());
    }
}

pub proof fn lemma_le64_seq_len(s: Seq<u64>)
    ensures
        le64_seq(s).len() == 8 * s.len(),
    decreases s.len(),
{
    if s.len() > 0 {
        lemma_le64_seq_len(s.drop_last());
    }
}

/// Reading back the bytes of a `u16` gives the `u16`.
pub proof fn lemma_le16_roundtrip(x: u16)
    ensures
        from_le16(le16(x)) == x,
{
    let b = le16(x);
    assert(b[0] == (x & 0xff) as u8 && b[1] == ((x >> 8) & 0xff) as u8);
    assert(((x & 0xff) as u8 as u16) | ((((x >> 8) & 0xff) as u8 as u16) << 8) == x)
        by (bit_vector);
}

/// Reading back the bytes of a `u32` gives the `u32`.
pub proof fn lemma_le32_roundtrip(x: u32)
    ensures
        from_le32(le32(x)) == x,
{
    let b = le32(x);
    assert(b[0] == (x & 0xff) as u8 && b[1] == ((x >> 8) & 0xff) as u8 && b[2] == ((x >> 16)
        & 0xff) as u8 && b[3] == ((x >> 24) & 0xff) as u8);
    assert(((x & 0xff) as u8 as u32) | ((((x >> 8) & 0xff) as u8 as u32) << 8) | ((((x >> 16)
        & 0xff) as u8 as u32) << 16) | ((((x >> 24) & 0xff) as u8 as u32) << 24) == x)
        by (bit_vector);
}

/// Reading back the bytes of a `u64` gives the `u64`.
pub proof fn lemma_le64_roundtrip(x: u64)
    ensures
        from_le64(le64(x)) == x,
{
    let b = le64(x);
    assert(b[0] == (x & 0xff) as u8 && b[1] == ((x >> 8) & 0xff) as u8 && b[2] == ((x >> 16)
        & 0xff) as u8 && b[3] == ((x >> 24) & 0xff) as u8 && b[4] == ((x >> 32) & 0xff) as u8
        && b[5] == ((x >> 40) & 0xff) as u8 && b[6] == ((x >> 48) & 0xff) as u8 && b[7] == ((x
        >> 56) & 0xff) as u8);
    assert(((x & 0xff) as u8 as u64) | ((((x >> 8) & 0xff) as u8 as u64) << 8) | ((((x >> 16)
        & 0xff) as u8 as u64) << 16) | ((((x >> 24) & 0xff) as u8 as u64) << 24) | ((((x >> 32)
        & 0xff) as u8 as u64) << 32) | ((((x >> 40) & 0xff) as u8 as u64) << 40) | ((((x >> 48)
        & 0xff) as u8 as u64) << 48) | ((((x >> 56) & 0xff) as u8 as u64) << 56) == x)
        by (bit_vector);
}

/// Appends one byte.
pub fn put_u8(v: &mut Vec<u8>, x: u8)
    ensures
        final(v)@ == old(v)@.push(x),
{
    v.push(x);
}

/// Appends the little-endian bytes of a `u16`.
pub fn put_u16(v: &mut Vec<u8>, x: u16)
    ensures
        final(v)@ == old(v)@ + le16(x),
{
    v.push((x & 0xff) as u8);
    v.push(((x >> 8) & 0xff) as u8);
    assert(v@ =~= old(v)@ + le16(x));
}

/// Appends the little-endian bytes of a `u32`.
pub fn put_u32(v: &mut Vec<u8>, x: u32)
    ensures
        final(v)@ == old(v)@ + le32(x),
{
    v.push((x & 0xff) as u8);
    v.push(((x >> 8) & 0xff) as u8);
    v.push(((x >> 16) & 0xff) as u8);
    v.push(((x >> 24) & 0xff) as u8);
    assert(v@ =~= old(v)@ + le32(x));
}

/// Appends the little-endian bytes of a `u64`.
pub fn put_u64(v: &mut Vec<u8>, x: u64)
    ensures
        final(v)@ == old(v)@ + le64(x),
{
    v.push((x & 0xff) as u8);
    v.push(((x >> 8) & 0xff) as u8);
    v.push(((x >> 16) & 0xff) as u8);
    v.push(((x >> 24) & 0xff) as u8);
    v.push(((x >> 32) & 0xff) as u8);
    v.push(((x >> 40) & 0xff) as u8);
    v.push(((x >> 48) & 0xff) as u8);
    v.push(((x >> 56) & 0xff) as u8);
    assert(v@ =~= old(v)@ + le64(x));
}

/// Appends the bytes of `a`, in order.
pub fn put_bytes(v: &mut Vec<u8>, a: &[u8])
    ensures
        final(v)@ == old(v)@ + a@,
{
    let mut i: usize = 0;
    while i < a.len()
        invariant
            i <= a.len(),
            v@ == old(v)@ + a@.take(i as int),
        decreases a.len() - i,
    {
        v.push(a[i]);
        i = i + 1;
        assert(v@ =~= old(v)@ + a@.take(i as int));
    }
    assert(a@.take(i as int) =~= a@);
}

/// Appends the little-endian bytes of every element of `a`, in order.
pub fn put_u32_array(v: &mut Vec<u8>, a: &[u32])
    ensures
        final(v)@ == old(v)@ + le32_seq(a@),
{
    let mut i: usize = 0;
    while i < a.len()
        invariant
            i <= a.len(),
            v@ == old(v)@ + le32_seq(a@.take(i as int)),
        decreases a.len() - i,
    {
        put_u32(v, a[i]);
        assert(a@.take(i as int + 1).drop_last() =~= a@.take(i as int));
        i = i + 1;
        assert(v@ =~= old(v)@ + le32_seq(a@.take(i as int)));
    }
    assert(a@.take(i as int) =~= a@);
}

/// Appends the little-endian bytes of every element of `a`, in order.
pub fn put_u64_array(v: &mut Vec<u8>, a: &[u64])
    ensures
        final(v)@ == old(v)@ + le64_seq(a@),
{
    let mut i: usize = 0;
    while i < a.len()
        invariant
            i <= a.len(),
            v@ == old(v)@ + le64_seq(a@.take(i as int)),
        decreases a.len() - i,
    {
        put_u64(v, a[i]);
        assert(a@.take(i as int + 1).drop_last() =~= a@.take(i as int));
        i = i + 1;
        assert(v@ =~= old(v)@ + le64_seq(a@.take(i as int)));
    }
    assert(a@.take(i as int) =~= a@);
}

/// Reads the little-endian `u16` at `pos`.
pub fn get_u16(b: &[u8], pos: usize) -> (x: u16)
    requires
        pos + 2 <= b@.len(),
    ensures
        x == from_le16(b@.subrange(pos as int, pos + 2)),
{
    (b[pos] as u16) | ((b[pos + 1] as u16) << 8)
}

/// Reads the little-endian `u32` at `pos`.
pub fn get_u32(b: &[u8], pos: usize) -> (x: u32)
    requires
        pos + 4 <= b@.len(),
    ensures
        x == from_le32(b@.subrange(pos as int, pos + 4)),
{
    (b[pos] as u32) | ((b[pos + 1] as u32) << 8) | ((b[pos + 2] as u32) << 16) | ((b[pos + 3]
        as u32) << 24)
}

/// Reads the little-endian `u64` at `pos`.
pub fn get_u64(b: &[u8], pos: usize) -> (x: u64)
    requires
        pos + 8 <= b@.len(),
    ensures
        x == from_le64(b@.subrange(pos as int, pos + 8)),
{
    (b[pos] as u64) | ((b[pos + 1] as u64) << 8) | ((b[pos + 2] as u64) << 16) | ((b[pos + 3]
        as u64) << 24) | ((b[pos + 4] as u64) << 32) | ((b[pos + 5] as u64) << 40) | ((b[pos
        + 6] as u64) << 48) | ((b[pos + 7] as u64) << 56)
}

/// A buffer of `n` zero bytes.
pub fn zeroed(n: usize) -> (v: Vec<u8>)
    ensures
        v@ == Seq::new(n as nat, |i: int| 0u8),
{
    let mut v: Vec<u8> = Vec::new();
    let mut i: usize = 0;
    while i < n
        invariant
            i <= n,
            v@ == Seq::new(i as nat, |j: int| 0u8),
        decreases n - i,
    {
        v.push(0);
        i = i + 1;
        assert(v@ =~= Seq::new(i as nat, |j: int| 0u8));
    }
    v
}

/// `x` as a `usize`, when it fits.
pub fn usize_from_u64(x: u64) -> (r: Option<usize>)
    ensures
        x <= usize::MAX ==> r == Some(x as usize),
        x > usize::MAX ==> r is None,
{
    if x <= usize::MAX as u64 {
        Some(x as usize)
    } else {
        None
    }
}

} // verus!
