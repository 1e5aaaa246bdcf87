//! Big-endian integer encodings used on the PFCP wire, with their
//! specifications and round-trip lemmas.
use vstd::prelude::*;

verus! {

/// The two bytes of `v`, most significant first.
pub open spec fn be16(v: u16) -> Seq<u8> {
    seq![(v / 256) as u8, (v % 256) as u8]
}

/// The value of two bytes read most significant first.
pub open spec fn be16_value(hi: u8, lo: u8) -> u16 {
    (hi * 256 + lo) as u16
}

/// The three low bytes of `v`, most significant first.
pub open spec fn be24(v: u32) -> Seq<u8> {
    seq![((v / 65536) % 256) as u8, ((v / 256) % 256) as u8, (v % 256) as u8]
}

/// The value of three bytes read most significant first.
pub open spec fn be24_value(b0: u8, b1: u8, b2: u8) -> u32 {
    (b0 * 65536 + b1 * 256 + b2) as u32
}

/// The four bytes of `v`, most significant first.
pub open spec fn be32(v: u32) -> Seq<u8> {
    be16((v / 65536) as u16) + be16((v % 65536) as u16)
}

/// The value of four bytes (`s.len() >= 4`) read most significant first.
pub open spec fn be32_value(s: Seq<u8>) -> u32 {
    (be16_value(s[0], s[1]) * 65536 + be16_value(s[2], s[3])) as u32
}

/// The eight bytes of `v`, most significant first.
pub open spec fn be64(v: u64) -> Seq<u8> {
    be32((v / 4294967296) as u32) + be32((v % 4294967296) as u32)
}

/// The value of eight bytes (`s.len() >= 8`) read most significant first.
pub open spec fn be64_value(s: Seq<u8>) -> u64 {
    (be32_value(s) * 4294967296 + be32_value(s.subrange(4, 8))) as u64
}

pub proof fn lemma_be16_roundtrip(v: u16)
    ensures
        be16(v).len() == 2,
        be16_value(be16(v)[0], be16(v)[1]) == v,
{
}

pub proof fn lemma_be24_roundtrip(v: u32)
    requires
        v < 16777216,
    ensures
        be24(v).len() == 3,
        be24_value(be24(v)[0], be24(v)[1], be24(v)[2]) == v,
{
}

pub proof fn lemma_be32_roundtrip(v: u32)
    ensures
        be32(v).len() == 4,
        be32_value(be32(v)) == v,
{
    lemma_be16_roundtrip((v / 65536) as u16);
    lemma_be16_roundtrip((v % 65536) as u16);
}

pub proof fn lemma_be32_value_prefix(s: Seq<u8>, t: Seq<u8>)
    requires
        s.len() >= 4,
    ensures
        be32_value(s + t) == be32_value(s),
{
}

pub proof fn lemma_be64_roundtrip(v: u64)
    ensures
        be64(v).len() == 8,
        be64_value(be64(v)) == v,
{
    let hi = (v / 4294967296) as u32;
    let lo = (v % 4294967296) as u32;
    lemma_be32_roundtrip(hi);
    lemma_be32_roundtrip(lo);
    assert(be64(v).subrange(4, 8) =~= be32(lo));
    lemma_be32_value_prefix(be32(hi), be32(lo));
}

/// Appends the two bytes of `v`, most significant first.
pub fn push_be16(buf: &mut Vec<u8>, v: u16)
    ensures
        final(buf)@ == old(buf)@ + be16(v),
{
    buf.push((v / 256) as u8);
    buf.push((v % 256) as u8);
    assert(final(buf)@ =~= old(buf)@ + be16(v));
}

/// Appends the three low bytes of `v`, most significant first.
pub fn push_be24(buf: &mut Vec<u8>, v: u32)
    ensures
        final(buf)@ == old(buf)@ + be24(v),
{
    buf.push(((v / 65536) % 256) as u8);
    buf.push(((v / 256) % 256) as u8);
    buf.push((v % 256) as u8);
    assert(final(buf)@ =~= old(buf)@ + be24(v));
}

/// Appends the four bytes of `v`, most significant first.
pub fn push_be32(buf: &mut Vec<u8>, v: u32)
    ensures
        final(buf)@ == old(buf)@ + be32(v),
{
    push_be16(buf, (v / 65536) as u16);
    push_be16(buf, (v % 65536) as u16);
    assert(final(buf)@ =~= old(buf)@ + be32(v));
}

/// Appends the eight bytes of `v`, most significant first.
pub fn push_be64(buf: &mut Vec<u8>, v: u64)
    ensures
        final(buf)@ == old(buf)@ + be64(v),
{
    push_be32(buf, (v / 4294967296) as u32);
    push_be32(buf, (v % 4294967296) as u32);
    assert(final(buf)@ =~= old(buf)@ + be64(v));
}

/// Appends all of `src`.
pub fn push_all(buf: &mut Vec<u8>, src: &[u8])
    ensures
        final(buf)@ == old(buf)@ + src@,
{
    let mut i: usize = 0;
    while i < src.len()
        invariant
            i <= src@.len(),
            buf@ == old(buf)@ + src@.take(i as int),
        decreases src@.len() - i,
    {
        buf.push(src[i]);
        i = i + 1;
        assert(buf@ =~= old(buf)@ + src@.take(i as int));
    }
    assert(src@.take(i as int) =~= src@);
}

/// The bytes `data[start..end]` as a new vector.
pub fn copy_range(data: &[u8], start: usize, end: usize) -> (r: Vec<u8>)
    requires
        start <= end <= data@.len(),
    ensures
        r@ == data@.subrange(start as int, end as int),
{
    let mut r: Vec<u8> = Vec::new();
    let mut i: usize = start;
    while i < end
        invariant
            start <= i <= end <= data@.len(),
            r@ == data@.subrange(start as int, i as int),
        decreases end - i,
    {
        r.push(data[i]);
        i = i + 1;
        assert(r@ =~= data@.subrange(start as int, i as int));
    }
    r
}

/// Reads a big-endian `u16` at `pos`.
pub fn read_be16(data: &[u8], pos: usize) -> (r: u16)
    requires
        pos + 2 <= data@.len(),
    ensures
        r == be16_value(data@[pos as int], data@[pos + 1]),
{
    (data[pos] as u16) * 256 + (data[pos + 1] as u16)
}

/// Reads a big-endian 24-bit value at `pos`.
pub fn read_be24(data: &[u8], pos: usize) -> (r: u32)
    requires
        pos + 3 <= data@.len(),
    ensures
        r == be24_value(data@[pos as int], data@[pos + 1], data@[pos + 2]),
{
    (data[pos] as u32) * 65536 + (data[pos + 1] as u32) * 256 + (data[pos + 2] as u32)
}

/// Reads a big-endian `u32` at `pos`.
pub fn read_be32(data: &[u8], pos: usize) -> (r: u32)
    requires
        pos + 4 <= data@.len(),
    ensures
        r == be32_value(data@.subrange(pos as int, pos + 4)),
{
    assert(pos + 4 <= data.len());
    let hi = read_be16(data, pos);
    let lo = read_be16(data, pos + 2);
    (hi as u32) * 65536 + (lo as u32)
}

/// Reads a big-endian `u64` at `pos`.
pub fn read_be64(data: &[u8], pos: usize) -> (r: u64)
    requires
        pos + 8 <= data@.len(),
    ensures
        r == be64_value(data@.subrange(pos as int, pos + 8)),
{
    assert(pos + 8 <= data.len());
    let hi = read_be32(data, pos);
    let lo = read_be32(data, pos + 4);
    assert(data@.subrange(pos as int, pos + 8).subrange(0, 4) =~= data@.subrange(pos as int, pos + 4));
    assert(data@.subrange(pos as int, pos + 8).subrange(4, 8) =~= data@.subrange(pos + 4, pos + 8));
    (hi as u64) * 4294967296 + (lo as u64)
}

} // verus!
