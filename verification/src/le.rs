//! Little-endian integers in byte sequences.
use vstd::prelude::*;

verus! {

/// The 16-bit little-endian value stored at `p`.
pub open spec fn le16(s: Seq<u8>, p: int) -> u16 {
    (s[p] as int + 256 * s[p + 1] as int) as u16
}

/// The 32-bit little-endian value stored at `p`.
pub open spec fn le32(s: Seq<u8>, p: int) -> u32 {
    (le16(s, p) as int + 0x1_0000 * le16(s, p + 2) as int) as u32
}

/// The 64-bit little-endian value stored at `p`.
pub open spec fn le64(s: Seq<u8>, p: int) -> u64 {
    (le32(s, p) as int + 0x1_0000_0000 * le32(s, p + 4) as int) as u64
}

/// The two little-endian bytes of `v`.
pub open spec fn ser16(v: u16) -> Seq<u8> {
    seq![(v % 256) as u8, (v / 256) as u8]
}

/// The four little-endian bytes of `v`.
pub open spec fn ser32(v: u32) -> Seq<u8> {
    ser16((v % 0x1_0000) as u16) + ser16((v / 0x1_0000) as u16)
}

/// The eight little-endian bytes of `v`.
pub open spec fn ser64(v: u64) -> Seq<u8> {
    ser32((v % 0x1_0000_0000) as u32) + ser32((v / 0x1_0000_0000) as u32)
}

pub fn read_le16(data: &[u8], p: usize) -> (r: u16)
    requires
        p + 2 <= data@.len(),
    ensures
        r == le16(data@, p as int),
{
    data[p] as u16 + 256 * (data[p + 1] as u16)
}

pub fn read_le32(data: &[u8], p: usize) -> (r: u32)
    requires
        p + 4 <= data@.len(),
    ensures
        r == le32(data@, p as int),
{
    let _n = data.len();
    let lo = read_le16(data, p);
    let hi = read_le16(data, p + 2);
    lo as u32 + 0x1_0000 * (hi as u32)
}

pub fn read_le64(data: &[u8], p: usize) -> (r: u64)
    requires
        p + 8 <= data@.len(),
    ensures
        r == le64(data@, p as int),
{
    let _n = data.len();
    let lo = read_le32(data, p);
    let hi = read_le32(data, p + 4);
    lo as u64 + 0x1_0000_0000 * (hi as u64)
}

pub fn write_le16(out: &mut Vec<u8>, v: u16)
    ensures
        final(out)@ == old(out)@ + ser16(v),
{
    out.push((v % 256) as u8);
    out.push((v / 256) as u8);
    assert(final(out)@ =~= old(out)@ + ser16(v));
}

pub fn write_le32(out: &mut Vec<u8>, v: u32)
    ensures
        final(out)@ == old(out)@ + ser32(v),
{
    write_le16(out, (v % 0x1_0000) as u16);
    write_le16(out, (v / 0x1_0000) as u16);
    assert(final(out)@ =~= old(out)@ + ser32(v));
}

pub fn write_le64(out: &mut Vec<u8>, v: u64)
    ensures
        final(out)@ == old(out)@ + ser64(v),
{
    write_le32(out, (v % 0x1_0000_0000) as u32);
    write_le32(out, (v / 0x1_0000_0000) as u32);
    assert(final(out)@ =~= old(out)@ + ser64(v));
}

/// Reading back the bytes of a 16-bit value at any offset gives the value.
pub proof fn lemma_le16_roundtrip(s: Seq<u8>, p: int, v: u16)
    requires
        0 <= p,
        p + 2 <= s.len(),
        s.subrange(p, p + 2) == ser16(v),
    ensures
        le16(s, p) == v,
{
    assert(s[p] == s.subrange(p, p + 2)[0]);
    assert(s[p + 1] == s.subrange(p, p + 2)[1]);
}

/// Reading back the bytes of a 32-bit value at any offset gives the value.
pub proof fn lemma_le32_roundtrip(s: Seq<u8>, p: int, v: u32)
    requires
        0 <= p,
        p + 4 <= s.len(),
        s.subrange(p, p + 4) == ser32(v),
    ensures
        le32(s, p) == v,
{
    let a = ser16((v % 0x1_0000) as u16);
    let b = ser16((v / 0x1_0000) as u16);
    assert(s.subrange(p, p + 2) =~= (a + b).subrange(0, 2));
    assert(s.subrange(p + 2, p + 4) =~= (a + b).subrange(2, 4));
    assert((a + b).subrange(0, 2) =~= a);
    assert((a + b).subrange(2, 4) =~= b);
    lemma_le16_roundtrip(s, p, (v % 0x1_0000) as u16);
    lemma_le16_roundtrip(s, p + 2, (v / 0x1_0000) as u16);
}

/// Reading back the bytes of a 64-bit value at any offset gives the value.
pub proof fn lemma_le64_roundtrip(s: Seq<u8>, p: int, v: u64)
    requires
        0 <= p,
        p + 8 <= s.len(),
        s.subrange(p, p + 8) == ser64(v),
    ensures
        le64(s, p) == v,
{
    let a = ser32((v % 0x1_0000_0000) as u32);
    let b = ser32((v / 0x1_0000_0000) as u32);
    assert(s.subrange(p, p + 4) =~= (a + b).subrange(0, 4));
    assert(s.subrange(p + 4, p + 8) =~= (a + b).subrange(4, 8));
    assert((a + b).subrange(0, 4) =~= a);
    assert((a + b).subrange(4, 8) =~= b);
    lemma_le32_roundtrip(s, p, (v % 0x1_0000_0000) as u32);
    lemma_le32_roundtrip(s, p + 4, (v / 0x1_0000_0000) as u32);
}

} // verus!
