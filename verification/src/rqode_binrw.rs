//! The typed element format ("RQode") used by the packet structures.
//!
//! Every scalar element is a one-byte tag followed by a little-endian
//! payload; byte arrays, strings and vectors are a u16 element giving the
//! length followed by the items. Each type here reads itself from a byte
//! slice at a position and writes itself to a byte vector, and reading back
//! what was written gives the value again.
use vstd::prelude::*;
use vstd::utf8::*;
use crate::le::{
    le16, le32, le64, ser16, ser32, ser64, read_le16, read_le32, read_le64, write_le16,
    write_le32, write_le64, lemma_le16_roundtrip, lemma_le32_roundtrip, lemma_le64_roundtrip,
};
use crate::text::{string_from_utf8, copy_range};

verus! {

/// Errors of the typed reader.
#[derive(Clone, Copy, Debug, PartialEq, Eq, Structural)]
pub enum BinError {
    /// The data ended inside an element.
    Eof,
    /// An element started with another tag than expected (the byte found).
    BadMagic(u8),
    /// A string was not UTF-8.
    Utf8,
    /// A compressed blob did not decompress.
    Decompress,
    /// No variant of an enumeration matched.
    NoVariant,
    /// Bytes were left after a complete read (the position where they start).
    TrailingBytes(usize),
}

/// The outcome of reading one value: its view and the position after it.
pub type SpecRead<V> = Result<(V, int), BinError>;

/// Checks the tag of an element with an `n`-byte payload at `p`: the
/// position of the payload.
pub open spec fn spec_tag(s: Seq<u8>, p: int, magic: u8, n: int) -> Result<int, BinError> {
    if p >= s.len() {
        Err(BinError::Eof)
    } else if s[p] != magic {
        Err(BinError::BadMagic(s[p]))
    } else if p + 1 + n > s.len() {
        Err(BinError::Eof)
    } else {
        Ok(p + 1)
    }
}

fn check_tag(data: &[u8], p: usize, magic: u8, n: usize) -> (r: Result<usize, BinError>)
    requires
        p <= data@.len(),
        n <= 1000,
    ensures
        data@.len() <= usize::MAX,
        match r {
            Ok(q) => spec_tag(data@, p as int, magic, n as int) == Ok::<int, BinError>(q as int),
            Err(e) => spec_tag(data@, p as int, magic, n as int) == Err::<int, BinError>(e),
        },
{
    let len = data.len();
    if p >= len {
        Err(BinError::Eof)
    } else if data[p] != magic {
        Err(BinError::BadMagic(data[p]))
    } else if len - p - 1 < n {
        Err(BinError::Eof)
    } else {
        Ok(p + 1)
    }
}

/// A type with a byte encoding in this format.
pub trait Wire: Sized + View {
    /// Reading a value at `p`.
    spec fn spec_parse(s: Seq<u8>, p: int) -> SpecRead<Self::V>;

    /// The bytes written for a value.
    spec fn spec_ser(v: Self::V) -> Seq<u8>;

    /// Values whose bytes read back as themselves (lengths that fit a u16,
    /// and so on).
    spec fn spec_wf(v: Self::V) -> bool;

    fn parse(data: &[u8], p: usize) -> (r: Result<(Self, usize), BinError>)
        requires
            p <= data@.len(),
        ensures
            r matches Ok((_, q)) ==> p <= q <= data@.len(),
            match r {
                Ok((v, q)) => Self::spec_parse(data@, p as int) == Ok::<(Self::V, int), BinError>(
                    (v@, q as int),
                ),
                Err(e) => Self::spec_parse(data@, p as int) == Err::<(Self::V, int), BinError>(e),
            },
    ;

    fn write(&self, out: &mut Vec<u8>)
        ensures
            final(out)@ == old(out)@ + Self::spec_ser(self@),
    ;

    /// Round-trip law: a well-formed value's bytes, found at any position,
    /// read back as the value and end where the bytes end.
    proof fn lemma_roundtrip(v: Self::V, s: Seq<u8>, p: int)
        requires
            Self::spec_wf(v),
            0 <= p,
            p + Self::spec_ser(v).len() <= s.len(),
            s.subrange(p, p + Self::spec_ser(v).len()) == Self::spec_ser(v),
        ensures
            Self::spec_parse(s, p) == Ok::<(Self::V, int), BinError>((v, p + Self::spec_ser(v).len())),
    ;
}

/// Reads a whole value from the start of `data`, returning where it ends.
pub fn read_partial<T: Wire>(data: &[u8]) -> (r: Result<(T, usize), BinError>)
    ensures
        match r {
            Ok((v, q)) => T::spec_parse(data@, 0) == Ok::<(T::V, int), BinError>((v@, q as int)),
            Err(e) => T::spec_parse(data@, 0) == Err::<(T::V, int), BinError>(e),
        },
{
    T::parse(data, 0)
}

/// Reads a value that must take up all of `data`.
pub fn read_checked<T: Wire>(data: &[u8]) -> (r: Result<T, BinError>)
    ensures
        match T::spec_parse(data@, 0) {
            Ok((v, q)) => if q == data@.len() {
                r matches Ok(x) && x@ == v
            } else {
                r == Err::<T, BinError>(BinError::TrailingBytes(q as usize))
            },
            Err(e) => r == Err::<T, BinError>(e),
        },
{
    let (v, q) = T::parse(data, 0)?;
    if q == data.len() {
        Ok(v)
    } else {
        Err(BinError::TrailingBytes(q))
    }
}

/// Splitting law used by the round-trip proofs: a prefix of a matching
/// range matches the prefix of the bytes.
pub proof fn lemma_subrange_prefix(s: Seq<u8>, p: int, a: Seq<u8>, b: Seq<u8>)
    requires
        0 <= p,
        p + a.len() + b.len() <= s.len(),
        s.subrange(p, p + a.len() + b.len()) == a + b,
    ensures
        s.subrange(p, p + a.len()) == a,
        s.subrange(p + a.len(), p + a.len() + b.len()) == b,
{
    assert(s.subrange(p, p + a.len()) =~= (a + b).subrange(0, a.len() as int));
    assert((a + b).subrange(0, a.len() as int) =~= a);
    assert(s.subrange(p + a.len(), p + a.len() + b.len()) =~= (a + b).subrange(
        a.len() as int,
        (a.len() + b.len()) as int,
    ));
    assert((a + b).subrange(a.len() as int, (a.len() + b.len()) as int) =~= b);
}

/// A one-byte element (tag `0x01`).
#[derive(Debug, Clone, Copy, PartialEq, Eq, Structural)]
pub struct U8(pub u8);

/// A two-byte element (tag `0x02`).
#[derive(Debug, Clone, Copy, PartialEq, Eq, Structural)]
pub struct U16(pub u16);

/// A one-byte boolean element (tag `0x03`).
#[derive(Debug, Clone, Copy, PartialEq, Eq, Structural)]
pub struct RBool(pub u8);

/// A four-byte element (tag `0x04`).
#[derive(Debug, Clone, Copy, PartialEq, Eq, Structural)]
pub struct U32(pub u32);

/// A 32-bit float element (tag `0x05`), held as its IEEE-754 bit pattern.
#[derive(Debug, Clone, Copy, PartialEq, Eq, Structural)]
pub struct F32(pub u32);

/// An eight-byte element (tag `0x08`).
#[derive(Debug, Clone, Copy, PartialEq, Eq, Structural)]
pub struct U64(pub u64);

/// A four-byte element (tag `0x21`).
#[derive(Debug, Clone, Copy, PartialEq, Eq, Structural)]
pub struct Op21(pub u32);

/// A u32 and a u16 (tag `0x36`).
#[derive(Debug, Clone, Copy, PartialEq, Eq, Structural)]
pub struct Op36(pub u32, pub u16);

/// An inventory slot (tag `0x25`).
#[derive(Debug, Clone, Copy, PartialEq, Eq, Structural)]
pub struct InvSlot {
    pub idx: u8,
    /// Part of u16 index?
    pub unk1: u8,
    /// Inventory tab
    pub tab: u8,
    /// Inventory: 0 - trash, 1 - equipment, 2 - main inventory
    pub inv: u8,
}

impl View for U8 {
    type V = U8;

    open spec fn view(&self) -> U8 {
        *self
    }
}

impl View for U16 {
    type V = U16;

    open spec fn view(&self) -> U16 {
        *self
    }
}

impl View for RBool {
    type V = RBool;

    open spec fn view(&self) -> RBool {
        *self
    }
}

impl View for U32 {
    type V = U32;

    open spec fn view(&self) -> U32 {
        *self
    }
}

impl View for F32 {
    type V = F32;

    open spec fn view(&self) -> F32 {
        *self
    }
}

impl View for U64 {
    type V = U64;

    open spec fn view(&self) -> U64 {
        *self
    }
}

impl View for Op21 {
    type V = Op21;

    open spec fn view(&self) -> Op21 {
        *self
    }
}

impl View for Op36 {
    type V = Op36;

    open spec fn view(&self) -> Op36 {
        *self
    }
}

impl View for InvSlot {
    type V = InvSlot;

    open spec fn view(&self) -> InvSlot {
        *self
    }
}

impl Wire for U8 {
    open spec fn spec_parse(s: Seq<u8>, p: int) -> SpecRead<U8> {
        match spec_tag(s, p, 0x01, 1) {
            Ok(q) => Ok((U8(s[q]), q + 1)),
            Err(e) => Err(e),
        }
    }

    open spec fn spec_ser(v: U8) -> Seq<u8> {
        seq![0x01u8, v.0]
    }

    open spec fn spec_wf(v: U8) -> bool {
        true
    }

    fn parse(data: &[u8], p: usize) -> (r: Result<(Self, usize), BinError>) {
        let q = check_tag(data, p, 0x01, 1)?;
        Ok((U8(data[q]), q + 1))
    }

    fn write(&self, out: &mut Vec<u8>) {
        out.push(0x01);
        out.push(self.0);
        assert(final(out)@ =~= old(out)@ + Self::spec_ser(self@));
    }

    proof fn lemma_roundtrip(v: U8, s: Seq<u8>, p: int) {
        assert(s[p] == s.subrange(p, p + 2)[0]);
        assert(s[p + 1] == s.subrange(p, p + 2)[1]);
    }
}

impl Wire for RBool {
    open spec fn spec_parse(s: Seq<u8>, p: int) -> SpecRead<RBool> {
        match spec_tag(s, p, 0x03, 1) {
            Ok(q) => Ok((RBool(s[q]), q + 1)),
            Err(e) => Err(e),
        }
    }

    open spec fn spec_ser(v: RBool) -> Seq<u8> {
        seq![0x03u8, v.0]
    }

    open spec fn spec_wf(v: RBool) -> bool {
        true
    }

    fn parse(data: &[u8], p: usize) -> (r: Result<(Self, usize), BinError>) {
        let q = check_tag(data, p, 0x03, 1)?;
        Ok((RBool(data[q]), q + 1))
    }

    fn write(&self, out: &mut Vec<u8>) {
        out.push(0x03);
        out.push(self.0);
        assert(final(out)@ =~= old(out)@ + Self::spec_ser(self@));
    }

    proof fn lemma_roundtrip(v: RBool, s: Seq<u8>, p: int) {
        assert(s[p] == s.subrange(p, p + 2)[0]);
        assert(s[p + 1] == s.subrange(p, p + 2)[1]);
    }
}

impl Wire for U16 {
    open spec fn spec_parse(s: Seq<u8>, p: int) -> SpecRead<U16> {
        match spec_tag(s, p, 0x02, 2) {
            Ok(q) => Ok((U16(le16(s, q)), q + 2)),
            Err(e) => Err(e),
        }
    }

    open spec fn spec_ser(v: U16) -> Seq<u8> {
        seq![0x02u8] + ser16(v.0)
    }

    open spec fn spec_wf(v: U16) -> bool {
        true
    }

    fn parse(data: &[u8], p: usize) -> (r: Result<(Self, usize), BinError>) {
        let q = check_tag(data, p, 0x02, 2)?;
        Ok((U16(read_le16(data, q)), q + 2))
    }

    fn write(&self, out: &mut Vec<u8>) {
        out.push(0x02);
        write_le16(out, self.0);
        assert(final(out)@ =~= old(out)@ + Self::spec_ser(self@));
    }

    proof fn lemma_roundtrip(v: U16, s: Seq<u8>, p: int) {
        lemma_subrange_prefix(s, p, seq![0x02u8], ser16(v.0));
        assert(s[p] == s.subrange(p, p + 1)[0]);
        lemma_le16_roundtrip(s, p + 1, v.0);
    }
}

impl Wire for U32 {
    open spec fn spec_parse(s: Seq<u8>, p: int) -> SpecRead<U32> {
        match spec_tag(s, p, 0x04, 4) {
            Ok(q) => Ok((U32(le32(s, q)), q + 4)),
            Err(e) => Err(e),
        }
    }

    open spec fn spec_ser(v: U32) -> Seq<u8> {
        seq![0x04u8] + ser32(v.0)
    }

    open spec fn spec_wf(v: U32) -> bool {
        true
    }

    fn parse(data: &[u8], p: usize) -> (r: Result<(Self, usize), BinError>) {
        let q = check_tag(data, p, 0x04, 4)?;
        Ok((U32(read_le32(data, q)), q + 4))
    }

    fn write(&self, out: &mut Vec<u8>) {
        out.push(0x04);
        write_le32(out, self.0);
        assert(final(out)@ =~= old(out)@ + Self::spec_ser(self@));
    }

    proof fn lemma_roundtrip(v: U32, s: Seq<u8>, p: int) {
        lemma_subrange_prefix(s, p, seq![0x04u8], ser32(v.0));
        assert(s[p] == s.subrange(p, p + 1)[0]);
        lemma_le32_roundtrip(s, p + 1, v.0);
    }
}

impl Wire for F32 {
    open spec fn spec_parse(s: Seq<u8>, p: int) -> SpecRead<F32> {
        match spec_tag(s, p, 0x05, 4) {
            Ok(q) => Ok((F32(le32(s, q)), q + 4)),
            Err(e) => Err(e),
        }
    }

    open spec fn spec_ser(v: F32) -> Seq<u8> {
        seq![0x05u8] + ser32(v.0)
    }

    open spec fn spec_wf(v: F32) -> bool {
        true
    }

    fn parse(data: &[u8], p: usize) -> (r: Result<(Self, usize), BinError>) {
        let q = check_tag(data, p, 0x05, 4)?;
        Ok((F32(read_le32(data, q)), q + 4))
    }

    fn write(&self, out: &mut Vec<u8>) {
        out.push(0x05);
        write_le32(out, self.0);
        assert(final(out)@ =~= old(out)@ + Self::spec_ser(self@));
    }

    proof fn lemma_roundtrip(v: F32, s: Seq<u8>, p: int) {
        lemma_subrange_prefix(s, p, seq![0x05u8], ser32(v.0));
        assert(s[p] == s.subrange(p, p + 1)[0]);
        lemma_le32_roundtrip(s, p + 1, v.0);
    }
}

impl Wire for Op21 {
    open spec fn spec_parse(s: Seq<u8>, p: int) -> SpecRead<Op21> {
        match spec_tag(s, p, 0x21, 4) {
            Ok(q) => Ok((Op21(le32(s, q)), q + 4)),
            Err(e) => Err(e),
        }
    }

    open spec fn spec_ser(v: Op21) -> Seq<u8> {
        seq![0x21u8] + ser32(v.0)
    }

    open spec fn spec_wf(v: Op21) -> bool {
        true
    }

    fn parse(data: &[u8], p: usize) -> (r: Result<(Self, usize), BinError>) {
        let q = check_tag(data, p, 0x21, 4)?;
        Ok((Op21(read_le32(data, q)), q + 4))
    }

    fn write(&self, out: &mut Vec<u8>) {
        out.push(0x21);
        write_le32(out, self.0);
        assert(final(out)@ =~= old(out)@ + Self::spec_ser(self@));
    }

    proof fn lemma_roundtrip(v: Op21, s: Seq<u8>, p: int) {
        lemma_subrange_prefix(s, p, seq![0x21u8], ser32(v.0));
        assert(s[p] == s.subrange(p, p + 1)[0]);
        lemma_le32_roundtrip(s, p + 1, v.0);
    }
}

impl Wire for U64 {
    open spec fn spec_parse(s: Seq<u8>, p: int) -> SpecRead<U64> {
        match spec_tag(s, p, 0x08, 8) {
            Ok(q) => Ok((U64(le64(s, q)), q + 8)),
            Err(e) => Err(e),
        }
    }

    open spec fn spec_ser(v: U64) -> Seq<u8> {
        seq![0x08u8] + ser64(v.0)
    }

    open spec fn spec_wf(v: U64) -> bool {
        true
    }

    fn parse(data: &[u8], p: usize) -> (r: Result<(Self, usize), BinError>) {
        let q = check_tag(data, p, 0x08, 8)?;
        Ok((U64(read_le64(data, q)), q + 8))
    }

    fn write(&self, out: &mut Vec<u8>) {
        out.push(0x08);
        write_le64(out, self.0);
        assert(final(out)@ =~= old(out)@ + Self::spec_ser(self@));
    }

    proof fn lemma_roundtrip(v: U64, s: Seq<u8>, p: int) {
        lemma_subrange_prefix(s, p, seq![0x08u8], ser64(v.0));
        assert(s[p] == s.subrange(p, p + 1)[0]);
        lemma_le64_roundtrip(s, p + 1, v.0);
    }
}

impl Wire for Op36 {
    open spec fn spec_parse(s: Seq<u8>, p: int) -> SpecRead<Op36> {
        match spec_tag(s, p, 0x36, 6) {
            Ok(q) => Ok((Op36(le32(s, q), le16(s, q + 4)), q + 6)),
            Err(e) => Err(e),
        }
    }

    open spec fn spec_ser(v: Op36) -> Seq<u8> {
        seq![0x36u8] + ser32(v.0) + ser16(v.1)
    }

    open spec fn spec_wf(v: Op36) -> bool {
        true
    }

    fn parse(data: &[u8], p: usize) -> (r: Result<(Self, usize), BinError>) {
        let q = check_tag(data, p, 0x36, 6)?;
        Ok((Op36(read_le32(data, q), read_le16(data, q + 4)), q + 6))
    }

    fn write(&self, out: &mut Vec<u8>) {
        out.push(0x36);
        write_le32(out, self.0);
        write_le16(out, self.1);
        assert(final(out)@ =~= old(out)@ + Self::spec_ser(self@));
    }

    proof fn lemma_roundtrip(v: Op36, s: Seq<u8>, p: int) {
        lemma_subrange_prefix(s, p, seq![0x36u8] + ser32(v.0), ser16(v.1));
        lemma_subrange_prefix(s, p, seq![0x36u8], ser32(v.0));
        assert(s[p] == s.subrange(p, p + 1)[0]);
        lemma_le32_roundtrip(s, p + 1, v.0);
        lemma_le16_roundtrip(s, p + 5, v.1);
    }
}

impl Wire for InvSlot {
    open spec fn spec_parse(s: Seq<u8>, p: int) -> SpecRead<InvSlot> {
        match spec_tag(s, p, 0x25, 4) {
            Ok(q) => Ok((InvSlot { idx: s[q], unk1: s[q + 1], tab: s[q + 2], inv: s[q + 3] }, q + 4)),
            Err(e) => Err(e),
        }
    }

    open spec fn spec_ser(v: InvSlot) -> Seq<u8> {
        seq![0x25u8, v.idx, v.unk1, v.tab, v.inv]
    }

    open spec fn spec_wf(v: InvSlot) -> bool {
        true
    }

    fn parse(data: &[u8], p: usize) -> (r: Result<(Self, usize), BinError>) {
        let q = check_tag(data, p, 0x25, 4)?;
        Ok((InvSlot { idx: data[q], unk1: data[q + 1], tab: data[q + 2], inv: data[q + 3] }, q + 4))
    }

    fn write(&self, out: &mut Vec<u8>) {
        out.push(0x25);
        out.push(self.idx);
        out.push(self.unk1);
        out.push(self.tab);
        out.push(self.inv);
        assert(final(out)@ =~= old(out)@ + Self::spec_ser(self@));
    }

    proof fn lemma_roundtrip(v: InvSlot, s: Seq<u8>, p: int) {
        let t = s.subrange(p, p + 5);
        assert(s[p] == t[0] && s[p + 1] == t[1] && s[p + 2] == t[2] && s[p + 3] == t[3] && s[p
            + 4] == t[4]);
    }
}


/// The bytes of a run of u16 values, each little-endian.
pub open spec fn ser_u16s(v: Seq<u16>) -> Seq<u8>
    decreases v.len(),
{
    if v.len() == 0 {
        Seq::empty()
    } else {
        ser_u16s(v.drop_last()) + ser16(v.last())
    }
}

/// The bytes of a run of u32 values, each little-endian.
pub open spec fn ser_u32s(v: Seq<u32>) -> Seq<u8>
    decreases v.len(),
{
    if v.len() == 0 {
        Seq::empty()
    } else {
        ser_u32s(v.drop_last()) + ser32(v.last())
    }
}

/// `n` little-endian u16 values stored from `q`.
pub open spec fn spec_u16s(s: Seq<u8>, q: int, n: nat) -> Seq<u16> {
    Seq::new(n, |k: int| le16(s, q + 2 * k))
}

/// `n` little-endian u32 values stored from `q`.
pub open spec fn spec_u32s(s: Seq<u8>, q: int, n: nat) -> Seq<u32> {
    Seq::new(n, |k: int| le32(s, q + 4 * k))
}

pub proof fn lemma_ser_u16s_len(v: Seq<u16>)
    ensures
        ser_u16s(v).len() == 2 * v.len(),
    decreases v.len(),
{
    if v.len() > 0 {
        lemma_ser_u16s_len(v.drop_last());
    }
}

pub proof fn lemma_ser_u32s_len(v: Seq<u32>)
    ensures
        ser_u32s(v).len() == 4 * v.len(),
    decreases v.len(),
{
    if v.len() > 0 {
        lemma_ser_u32s_len(v.drop_last());
    }
}

/// Reading back a run of u16 values gives the values.
pub proof fn lemma_u16s_roundtrip(v: Seq<u16>, s: Seq<u8>, q: int)
    requires
        0 <= q,
        q + 2 * v.len() <= s.len(),
        s.subrange(q, q + 2 * v.len()) == ser_u16s(v),
    ensures
        spec_u16s(s, q, v.len()) == v,
    decreases v.len(),
{
    if v.len() > 0 {
        let n = v.len() - 1;
        lemma_ser_u16s_len(v.drop_last());
        lemma_subrange_prefix(s, q, ser_u16s(v.drop_last()), ser16(v.last()));
        lemma_u16s_roundtrip(v.drop_last(), s, q);
        lemma_le16_roundtrip(s, q + 2 * n, v.last());
        assert forall|k: int| 0 <= k < v.len() implies spec_u16s(s, q, v.len())[k] == v[k] by {
            if k < n {
                assert(spec_u16s(s, q, v.drop_last().len())[k] == v.drop_last()[k]);
            }
        }
    }
    assert(spec_u16s(s, q, v.len()) =~= v);
}

/// Reading back a run of u32 values gives the values.
pub proof fn lemma_u32s_roundtrip(v: Seq<u32>, s: Seq<u8>, q: int)
    requires
        0 <= q,
        q + 4 * v.len() <= s.len(),
        s.subrange(q, q + 4 * v.len()) == ser_u32s(v),
    ensures
        spec_u32s(s, q, v.len()) == v,
    decreases v.len(),
{
    if v.len() > 0 {
        let n = v.len() - 1;
        lemma_ser_u32s_len(v.drop_last());
        lemma_subrange_prefix(s, q, ser_u32s(v.drop_last()), ser32(v.last()));
        lemma_u32s_roundtrip(v.drop_last(), s, q);
        lemma_le32_roundtrip(s, q + 4 * n, v.last());
        assert forall|k: int| 0 <= k < v.len() implies spec_u32s(s, q, v.len())[k] == v[k] by {
            if k < n {
                assert(spec_u32s(s, q, v.drop_last().len())[k] == v.drop_last()[k]);
            }
        }
    }
    assert(spec_u32s(s, q, v.len()) =~= v);
}

fn read_u16s(data: &[u8], q: usize, out: &mut [u16])
    requires
        q + 2 * old(out)@.len() <= data@.len(),
    ensures
        final(out)@ == spec_u16s(data@, q as int, old(out)@.len()),
{
    let n = out.len();
    let total = data.len();
    let mut k: usize = 0;
    while k < n
        invariant
            k <= n,
            n == out@.len(),
            total == data@.len(),
            q + 2 * n <= total,
            forall|m: int| 0 <= m < k ==> out@[m] == le16(data@, q + 2 * m),
        decreases n - k,
    {
        out[k] = read_le16(data, q + 2 * k);
        k = k + 1;
    }
    assert(out@ =~= spec_u16s(data@, q as int, n as nat));
}

fn read_u32s(data: &[u8], q: usize, out: &mut [u32])
    requires
        q + 4 * old(out)@.len() <= data@.len(),
    ensures
        final(out)@ == spec_u32s(data@, q as int, old(out)@.len()),
{
    let n = out.len();
    let total = data.len();
    let mut k: usize = 0;
    while k < n
        invariant
            k <= n,
            n == out@.len(),
            total == data@.len(),
            q + 4 * n <= total,
            forall|m: int| 0 <= m < k ==> out@[m] == le32(data@, q + 4 * m),
        decreases n - k,
    {
        out[k] = read_le32(data, q + 4 * k);
        k = k + 1;
    }
    assert(out@ =~= spec_u32s(data@, q as int, n as nat));
}

fn write_u16s(out: &mut Vec<u8>, v: &[u16])
    ensures
        final(out)@ == old(out)@ + ser_u16s(v@),
{
    let mut k: usize = 0;
    while k < v.len()
        invariant
            k <= v@.len(),
            out@ == old(out)@ + ser_u16s(v@.subrange(0, k as int)),
        decreases v@.len() - k,
    {
        write_le16(out, v[k]);
        k = k + 1;
        assert(v@.subrange(0, k as int).drop_last() =~= v@.subrange(0, k - 1));
    }
    assert(v@.subrange(0, k as int) =~= v@);
}

fn write_u32s(out: &mut Vec<u8>, v: &[u32])
    ensures
        final(out)@ == old(out)@ + ser_u32s(v@),
{
    let mut k: usize = 0;
    while k < v.len()
        invariant
            k <= v@.len(),
            out@ == old(out)@ + ser_u32s(v@.subrange(0, k as int)),
        decreases v@.len() - k,
    {
        write_le32(out, v[k]);
        k = k + 1;
        assert(v@.subrange(0, k as int).drop_last() =~= v@.subrange(0, k - 1));
    }
    assert(v@.subrange(0, k as int) =~= v@);
}


/// Four u16 values (tag `0x13`).
#[derive(Debug, Clone, Copy, PartialEq, Eq)]
pub struct Op13(pub [u16; 4]);

/// Four u32 values (tag `0x3B`).
#[derive(Debug, Clone, Copy, PartialEq, Eq)]
pub struct Op3B(pub [u32; 4]);

/// Array of currency balances (tag `0x6C`); entry 0 is gold.
#[derive(Debug, Clone, PartialEq, Eq)]
pub struct CurrencyData {
    pub data: [u16; 36],
}

/// Character appearance (tag `0x1D`).
#[derive(Debug, Clone, Copy, PartialEq, Eq, Structural)]
pub struct BodyParam {
    pub haircolor: u16,
    pub unk1: u16,
    pub skin: u16,
    pub unk3: u16,
    pub unk4: u16,
    pub face: u16,
    pub unk6: u16,
    pub unk7: u16,
}

impl View for Op13 {
    type V = Seq<u16>;

    open spec fn view(&self) -> Seq<u16> {
        self.0@
    }
}

impl View for Op3B {
    type V = Seq<u32>;

    open spec fn view(&self) -> Seq<u32> {
        self.0@
    }
}

impl View for CurrencyData {
    type V = Seq<u16>;

    open spec fn view(&self) -> Seq<u16> {
        self.data@
    }
}

impl View for BodyParam {
    type V = BodyParam;

    open spec fn view(&self) -> BodyParam {
        *self
    }
}

impl Wire for Op13 {
    open spec fn spec_parse(s: Seq<u8>, p: int) -> SpecRead<Seq<u16>> {
        match spec_tag(s, p, 0x13, 8) {
            Ok(q) => Ok((spec_u16s(s, q, 4), q + 8)),
            Err(e) => Err(e),
        }
    }

    open spec fn spec_ser(v: Seq<u16>) -> Seq<u8> {
        seq![0x13u8] + ser_u16s(v)
    }

    open spec fn spec_wf(v: Seq<u16>) -> bool {
        v.len() == 4
    }

    fn parse(data: &[u8], p: usize) -> (r: Result<(Self, usize), BinError>) {
        let q = check_tag(data, p, 0x13, 8)?;
        let mut a = [0u16; 4];
        read_u16s(data, q, &mut a);
        Ok((Op13(a), q + 8))
    }

    fn write(&self, out: &mut Vec<u8>) {
        out.push(0x13);
        write_u16s(out, &self.0);
        assert(final(out)@ =~= old(out)@ + Self::spec_ser(self@));
    }

    proof fn lemma_roundtrip(v: Seq<u16>, s: Seq<u8>, p: int) {
        lemma_ser_u16s_len(v);
        lemma_subrange_prefix(s, p, seq![0x13u8], ser_u16s(v));
        assert(s[p] == s.subrange(p, p + 1)[0]);
        lemma_u16s_roundtrip(v, s, p + 1);
    }
}

impl Wire for Op3B {
    open spec fn spec_parse(s: Seq<u8>, p: int) -> SpecRead<Seq<u32>> {
        match spec_tag(s, p, 0x3B, 16) {
            Ok(q) => Ok((spec_u32s(s, q, 4), q + 16)),
            Err(e) => Err(e),
        }
    }

    open spec fn spec_ser(v: Seq<u32>) -> Seq<u8> {
        seq![0x3Bu8] + ser_u32s(v)
    }

    open spec fn spec_wf(v: Seq<u32>) -> bool {
        v.len() == 4
    }

    fn parse(data: &[u8], p: usize) -> (r: Result<(Self, usize), BinError>) {
        let q = check_tag(data, p, 0x3B, 16)?;
        let mut a = [0u32; 4];
        read_u32s(data, q, &mut a);
        Ok((Op3B(a), q + 16))
    }

    fn write(&self, out: &mut Vec<u8>) {
        out.push(0x3B);
        write_u32s(out, &self.0);
        assert(final(out)@ =~= old(out)@ + Self::spec_ser(self@));
    }

    proof fn lemma_roundtrip(v: Seq<u32>, s: Seq<u8>, p: int) {
        lemma_ser_u32s_len(v);
        lemma_subrange_prefix(s, p, seq![0x3Bu8], ser_u32s(v));
        assert(s[p] == s.subrange(p, p + 1)[0]);
        lemma_u32s_roundtrip(v, s, p + 1);
    }
}

impl Wire for CurrencyData {
    open spec fn spec_parse(s: Seq<u8>, p: int) -> SpecRead<Seq<u16>> {
        match spec_tag(s, p, 0x6C, 72) {
            Ok(q) => Ok((spec_u16s(s, q, 36), q + 72)),
            Err(e) => Err(e),
        }
    }

    open spec fn spec_ser(v: Seq<u16>) -> Seq<u8> {
        seq![0x6Cu8] + ser_u16s(v)
    }

    open spec fn spec_wf(v: Seq<u16>) -> bool {
        v.len() == 36
    }

    fn parse(data: &[u8], p: usize) -> (r: Result<(Self, usize), BinError>) {
        let q = check_tag(data, p, 0x6C, 72)?;
        let mut a = [0u16; 36];
        read_u16s(data, q, &mut a);
        Ok((CurrencyData { data: a }, q + 72))
    }

    fn write(&self, out: &mut Vec<u8>) {
        out.push(0x6C);
        write_u16s(out, &self.data);
        assert(final(out)@ =~= old(out)@ + Self::spec_ser(self@));
    }

    proof fn lemma_roundtrip(v: Seq<u16>, s: Seq<u8>, p: int) {
        lemma_ser_u16s_len(v);
        lemma_subrange_prefix(s, p, seq![0x6Cu8], ser_u16s(v));
        assert(s[p] == s.subrange(p, p + 1)[0]);
        lemma_u16s_roundtrip(v, s, p + 1);
    }
}

/// The eight appearance values of a [`BodyParam`], in wire order.
pub open spec fn body_seq(b: BodyParam) -> Seq<u16> {
    seq![b.haircolor, b.unk1, b.skin, b.unk3, b.unk4, b.face, b.unk6, b.unk7]
}

pub open spec fn body_from_seq(v: Seq<u16>) -> BodyParam {
    BodyParam {
        haircolor: v[0],
        unk1: v[1],
        skin: v[2],
        unk3: v[3],
        unk4: v[4],
        face: v[5],
        unk6: v[6],
        unk7: v[7],
    }
}

impl Wire for BodyParam {
    open spec fn spec_parse(s: Seq<u8>, p: int) -> SpecRead<BodyParam> {
        match spec_tag(s, p, 0x1D, 16) {
            Ok(q) => Ok((body_from_seq(spec_u16s(s, q, 8)), q + 16)),
            Err(e) => Err(e),
        }
    }

    open spec fn spec_ser(v: BodyParam) -> Seq<u8> {
        seq![0x1Du8] + ser_u16s(body_seq(v))
    }

    open spec fn spec_wf(v: BodyParam) -> bool {
        true
    }

    fn parse(data: &[u8], p: usize) -> (r: Result<(Self, usize), BinError>) {
        let q = check_tag(data, p, 0x1D, 16)?;
        let mut a = [0u16; 8];
        read_u16s(data, q, &mut a);
        let b = BodyParam {
            haircolor: a[0],
            unk1: a[1],
            skin: a[2],
            unk3: a[3],
            unk4: a[4],
            face: a[5],
            unk6: a[6],
            unk7: a[7],
        };
        Ok((b, q + 16))
    }

    fn write(&self, out: &mut Vec<u8>) {
        out.push(0x1D);
        let a = [
            self.haircolor,
            self.unk1,
            self.skin,
            self.unk3,
            self.unk4,
            self.face,
            self.unk6,
            self.unk7,
        ];
        assert(a@ =~= body_seq(*self));
        write_u16s(out, &a);
        assert(final(out)@ =~= old(out)@ + Self::spec_ser(self@));
    }

    proof fn lemma_roundtrip(v: BodyParam, s: Seq<u8>, p: int) {
        lemma_ser_u16s_len(body_seq(v));
        lemma_subrange_prefix(s, p, seq![0x1Du8], ser_u16s(body_seq(v)));
        assert(s[p] == s.subrange(p, p + 1)[0]);
        lemma_u16s_roundtrip(body_seq(v), s, p + 1);
    }
}


/// The u16 length element that opens a byte array, a string or a vector of
/// `n` items (the count is truncated to 16 bits, as the format stores it).
pub open spec fn len_prefix(n: nat) -> Seq<u8> {
    U16::spec_ser(U16(n as u16))
}

/// Reads the u16 length element at `p`: the count and where the items start.
pub open spec fn spec_len_prefix(s: Seq<u8>, p: int) -> SpecRead<nat> {
    match U16::spec_parse(s, p) {
        Ok((n, q)) => Ok((n.0 as nat, q)),
        Err(e) => Err(e),
    }
}

/// Reads `n` raw bytes at `p`.
pub open spec fn spec_raw(s: Seq<u8>, p: int, n: nat) -> SpecRead<Seq<u8>> {
    if p + n <= s.len() {
        Ok((s.subrange(p, p + n), p + n))
    } else {
        Err(BinError::Eof)
    }
}

/// A u16-length-prefixed byte array.
#[derive(Debug, Clone, PartialEq, Eq)]
pub struct RBytes {
    pub data: Vec<u8>,
}

impl View for RBytes {
    type V = Seq<u8>;

    open spec fn view(&self) -> Seq<u8> {
        self.data@
    }
}

impl RBytes {
    /// A byte array holding a copy of `value`.
    pub fn from_slice(value: &[u8]) -> (r: Self)
        ensures
            r@ == value@,
    {
        RBytes { data: copy_range(value, 0, value.len()) }
    }
}

impl Wire for RBytes {
    open spec fn spec_parse(s: Seq<u8>, p: int) -> SpecRead<Seq<u8>> {
        match spec_len_prefix(s, p) {
            Ok((n, q)) => spec_raw(s, q, n),
            Err(e) => Err(e),
        }
    }

    open spec fn spec_ser(v: Seq<u8>) -> Seq<u8> {
        len_prefix(v.len()) + v
    }

    open spec fn spec_wf(v: Seq<u8>) -> bool {
        v.len() < 0x1_0000
    }

    fn parse(data: &[u8], p: usize) -> (r: Result<(Self, usize), BinError>) {
        let (n, q) = U16::parse(data, p)?;
        let len = data.len();
        if len - q >= n.0 as usize {
            Ok((RBytes { data: copy_range(data, q, q + n.0 as usize) }, q + n.0 as usize))
        } else {
            Err(BinError::Eof)
        }
    }

    fn write(&self, out: &mut Vec<u8>) {
        U16(self.data.len() as u16).write(out);
        let mut k: usize = 0;
        let ghost mid = out@;
        while k < self.data.len()
            invariant
                k <= self.data@.len(),
                out@ == mid + self.data@.subrange(0, k as int),
            decreases self.data@.len() - k,
        {
            out.push(self.data[k]);
            k = k + 1;
            assert(out@ =~= mid + self.data@.subrange(0, k as int));
        }
        assert(self.data@.subrange(0, k as int) =~= self.data@);
        assert(final(out)@ =~= old(out)@ + Self::spec_ser(self@));
    }

    proof fn lemma_roundtrip(v: Seq<u8>, s: Seq<u8>, p: int) {
        let h = len_prefix(v.len());
        lemma_subrange_prefix(s, p, h, v);
        U16::lemma_roundtrip(U16(v.len() as u16), s, p);
    }
}

/// A u16-length-prefixed UTF-8 string.
#[derive(Debug, Clone, PartialEq, Eq)]
pub struct RString {
    pub data: String,
}

impl View for RString {
    type V = Seq<char>;

    open spec fn view(&self) -> Seq<char> {
        self.data@
    }
}

impl RString {
    /// The string holding a single NUL character.
    pub fn empty() -> (r: Self)
        ensures
            r@ == seq!['\0'],
    {
        let data = String::from_str("\0");
        proof {
            reveal_strlit("\0");
        }
        RString { data }
    }

    /// The text without its NUL terminator.
    pub fn into_string(self) -> (r: String)
        ensures
            r@ == crate::text::strip_nul(self@),
    {
        let mut data = self.data;
        crate::text::drop_trailing_nul(&mut data);
        data
    }

    /// The string holding `value` followed by a NUL character.
    pub fn from_text(value: &str) -> (r: Self)
        ensures
            r@ == value@.push('\0'),
    {
        let mut data = String::from_str(value);
        data.append("\0");
        proof {
            reveal_strlit("\0");
        }
        assert(data@ =~= value@.push('\0'));
        RString { data }
    }
}

impl Wire for RString {
    open spec fn spec_parse(s: Seq<u8>, p: int) -> SpecRead<Seq<char>> {
        match spec_len_prefix(s, p) {
            Ok((n, q)) => match spec_raw(s, q, n) {
                Ok((b, r)) => if valid_utf8(b) {
                    Ok((decode_utf8(b), r))
                } else {
                    Err(BinError::Utf8)
                },
                Err(e) => Err(e),
            },
            Err(e) => Err(e),
        }
    }

    open spec fn spec_ser(v: Seq<char>) -> Seq<u8> {
        len_prefix(encode_utf8(v).len()) + encode_utf8(v)
    }

    open spec fn spec_wf(v: Seq<char>) -> bool {
        encode_utf8(v).len() < 0x1_0000
    }

    fn parse(data: &[u8], p: usize) -> (r: Result<(Self, usize), BinError>) {
        let (b, q) = RBytes::parse(data, p)?;
        match string_from_utf8(b.data) {
            Ok(st) => Ok((RString { data: st }, q)),
            Err(_) => Err(BinError::Utf8),
        }
    }

    fn write(&self, out: &mut Vec<u8>) {
        let b = self.data.as_str().as_bytes();
        let n = b.len();
        U16(n as u16).write(out);
        let mut k: usize = 0;
        let ghost mid = out@;
        while k < n
            invariant
                k <= n,
                n == b@.len(),
                out@ == mid + b@.subrange(0, k as int),
            decreases n - k,
        {
            out.push(b[k]);
            k = k + 1;
            assert(out@ =~= mid + b@.subrange(0, k as int));
        }
        assert(b@.subrange(0, k as int) =~= b@);
        assert(final(out)@ =~= old(out)@ + Self::spec_ser(self@));
    }

    proof fn lemma_roundtrip(v: Seq<char>, s: Seq<u8>, p: int) {
        let b = encode_utf8(v);
        RBytes::lemma_roundtrip(b, s, p);
        encode_utf8_valid_utf8(v);
        encode_utf8_decode_utf8(v);
    }
}

/// The bytes that zlib decompression of `data` writes into a zeroed buffer
/// of `capacity` bytes, or `None` when the decompressor reports an error.
pub uninterp spec fn zlib_inflate(data: Seq<u8>, capacity: usize) -> Option<Seq<u8>>;

#[verifier::external_type_specification]
#[verifier::external_body]
pub struct ExDecompressError(flate2::DecompressError);

/// Decompresses a zlib stream into a zeroed buffer of `capacity` bytes;
/// returns the buffer and how many bytes were written to its front.
///
/// Trusted: `flate2::Decompress::new(true)` followed by `decompress` with
/// `FlushDecompress::Finish` into a buffer of fixed length is a function of
/// the input bytes and that length, named `zlib_inflate`; a fresh
/// decompressor's `total_out` counts the bytes written, which fit in the
/// buffer. Nothing is stated of the decompressed bytes themselves.
#[verifier::external_body]
fn flate_decompress(data: &[u8], capacity: usize) -> (r: Result<(Vec<u8>, usize), flate2::DecompressError>)
    ensures
        match r {
            Ok((buf, n)) => buf@.len() == capacity && n <= capacity && zlib_inflate(data@, capacity) == Some(
                buf@.subrange(0, n as int),
            ),
            Err(_) => zlib_inflate(data@, capacity) is None,
        },
{
    let mut out = vec![0u8; capacity];
    let mut d = flate2::Decompress::new(true);
    d.decompress(data, &mut out, flate2::FlushDecompress::Finish)?;
    Ok((out, d.total_out() as usize))
}

/// The output buffer size used for compressed blobs.
pub const ZLIB_CAPACITY: usize = 131072;

/// Decompresses a zlib stream (with header), into at most the room of a
/// 128 KiB buffer.
pub fn zlib_decompress(data: &[u8]) -> (r: Result<Vec<u8>, BinError>)
    ensures
        match r {
            Ok(v) => zlib_inflate(data@, ZLIB_CAPACITY) == Some(v@),
            Err(e) => zlib_inflate(data@, ZLIB_CAPACITY) is None && e == BinError::Decompress,
        },
{
    match flate_decompress(data, ZLIB_CAPACITY) {
        Ok((buf, n)) => Ok(copy_range(buf.as_slice(), 0, n)),
        Err(_) => Err(BinError::Decompress),
    }
}

/// A u16-length-prefixed blob that holds a 2-byte size followed by a zlib
/// stream; reading decompresses it. An empty blob reads as empty data.
#[derive(Debug, Clone, PartialEq, Eq)]
pub struct RZlib {
    pub data: Vec<u8>,
}

impl View for RZlib {
    type V = Seq<u8>;

    open spec fn view(&self) -> Seq<u8> {
        self.data@
    }
}

impl RZlib {
    /// The empty blob.
    pub fn empty() -> (r: Self)
        ensures
            r@ == Seq::<u8>::empty(),
    {
        RZlib { data: Vec::new() }
    }
}

impl Wire for RZlib {
    /// A blob of one byte has no room for the size prefix and reads as a
    /// decompression error.
    open spec fn spec_parse(s: Seq<u8>, p: int) -> SpecRead<Seq<u8>> {
        match RBytes::spec_parse(s, p) {
            Ok((b, q)) => if b.len() == 0 {
                Ok((Seq::empty(), q))
            } else if b.len() < 2 {
                Err(BinError::Decompress)
            } else {
                match zlib_inflate(b.subrange(2, b.len() as int), ZLIB_CAPACITY) {
                    Some(out) => Ok((out, q)),
                    None => Err(BinError::Decompress),
                }
            },
            Err(e) => Err(e),
        }
    }

    /// Writing stores the data as it is, uncompressed.
    open spec fn spec_ser(v: Seq<u8>) -> Seq<u8> {
        len_prefix(v.len()) + v
    }

    /// Only the empty blob reads back as itself.
    open spec fn spec_wf(v: Seq<u8>) -> bool {
        v.len() == 0
    }

    fn parse(data: &[u8], p: usize) -> (r: Result<(Self, usize), BinError>) {
        let (b, q) = RBytes::parse(data, p)?;
        let n = b.data.len();
        if n == 0 {
            Ok((RZlib { data: Vec::new() }, q))
        } else if n < 2 {
            Err(BinError::Decompress)
        } else {
            let body = copy_range(b.data.as_slice(), 2, n);
            let out = zlib_decompress(body.as_slice())?;
            Ok((RZlib { data: out }, q))
        }
    }

    fn write(&self, out: &mut Vec<u8>) {
        let b = RBytes { data: self.data.clone() };
        b.write(out);
    }

    proof fn lemma_roundtrip(v: Seq<u8>, s: Seq<u8>, p: int) {
        RBytes::lemma_roundtrip(v, s, p);
        assert(v =~= Seq::<u8>::empty());
    }
}


/// Reads `n` items one after another from `p`.
pub open spec fn spec_items<T: Wire>(s: Seq<u8>, p: int, n: nat) -> SpecRead<Seq<T::V>>
    decreases n,
{
    if n == 0 {
        Ok((Seq::empty(), p))
    } else {
        match spec_items::<T>(s, p, (n - 1) as nat) {
            Ok((vs, q)) => match T::spec_parse(s, q) {
                Ok((v, r)) => Ok((vs.push(v), r)),
                Err(e) => Err(e),
            },
            Err(e) => Err(e),
        }
    }
}

/// The bytes of items written one after another.
pub open spec fn ser_items<T: Wire>(v: Seq<T::V>) -> Seq<u8>
    decreases v.len(),
{
    if v.len() == 0 {
        Seq::empty()
    } else {
        ser_items::<T>(v.drop_last()) + T::spec_ser(v.last())
    }
}

/// A failure reading the first `m` items is the failure reading `n >= m`.
pub proof fn lemma_items_err<T: Wire>(s: Seq<u8>, p: int, m: nat, n: nat, e: BinError)
    requires
        m <= n,
        spec_items::<T>(s, p, m) == Err::<(Seq<T::V>, int), BinError>(e),
    ensures
        spec_items::<T>(s, p, n) == Err::<(Seq<T::V>, int), BinError>(e),
    decreases n - m,
{
    if m < n {
        lemma_items_err::<T>(s, p, m, (n - 1) as nat, e);
    }
}

/// Reading back well-formed items gives the items.
pub proof fn lemma_items_roundtrip<T: Wire>(v: Seq<T::V>, s: Seq<u8>, p: int)
    requires
        forall|k: int| 0 <= k < v.len() ==> T::spec_wf(#[trigger] v[k]),
        0 <= p,
        p + ser_items::<T>(v).len() <= s.len(),
        s.subrange(p, p + ser_items::<T>(v).len()) == ser_items::<T>(v),
    ensures
        spec_items::<T>(s, p, v.len()) == Ok::<(Seq<T::V>, int), BinError>(
            (v, p + ser_items::<T>(v).len()),
        ),
    decreases v.len(),
{
    if v.len() == 0 {
        assert(v =~= Seq::<T::V>::empty());
    } else {
        let init = v.drop_last();
        let a = ser_items::<T>(init);
        let b = T::spec_ser(v.last());
        lemma_subrange_prefix(s, p, a, b);
        assert forall|k: int| 0 <= k < init.len() implies T::spec_wf(#[trigger] init[k]) by {
            assert(init[k] == v[k]);
        }
        lemma_items_roundtrip::<T>(init, s, p);
        assert(T::spec_wf(v[v.len() - 1]));
        T::lemma_roundtrip(v.last(), s, p + a.len());
        assert(init.push(v.last()) =~= v);
    }
}

/// A u16-counted vector of items.
#[derive(Debug, Clone, PartialEq, Eq)]
pub struct RVec<T> {
    pub data: Vec<T>,
}

impl<T: View> View for RVec<T> {
    type V = Seq<T::V>;

    open spec fn view(&self) -> Seq<T::V> {
        self.data@.map_values(|x: T| x@)
    }
}

impl<T: Wire> Wire for RVec<T> {
    open spec fn spec_parse(s: Seq<u8>, p: int) -> SpecRead<Seq<T::V>> {
        match spec_len_prefix(s, p) {
            Ok((n, q)) => spec_items::<T>(s, q, n),
            Err(e) => Err(e),
        }
    }

    open spec fn spec_ser(v: Seq<T::V>) -> Seq<u8> {
        len_prefix(v.len()) + ser_items::<T>(v)
    }

    open spec fn spec_wf(v: Seq<T::V>) -> bool {
        &&& v.len() < 0x1_0000
        &&& forall|k: int| 0 <= k < v.len() ==> T::spec_wf(#[trigger] v[k])
    }

    fn parse(data: &[u8], p: usize) -> (r: Result<(Self, usize), BinError>) {
        let (n, q0) = U16::parse(data, p)?;
        let mut out: Vec<T> = Vec::new();
        let mut q = q0;
        let mut k: u16 = 0;
        assert(out@.map_values(|x: T| x@) =~= Seq::<T::V>::empty());
        while k < n.0
            invariant
                k <= n.0,
                p <= q0 <= q <= data@.len(),
                spec_len_prefix(data@, p as int) == Ok::<(nat, int), BinError>((n.0 as nat, q0 as int)),
                spec_items::<T>(data@, q0 as int, k as nat) == Ok::<(Seq<T::V>, int), BinError>(
                    (out@.map_values(|x: T| x@), q as int),
                ),
            decreases n.0 - k,
        {
            let ghost before = out@.map_values(|x: T| x@);
            match T::parse(data, q) {
                Ok((x, q2)) => {
                    out.push(x);
                    q = q2;
                    k = k + 1;
                    assert(out@.map_values(|x: T| x@) =~= before.push(x@));
                },
                Err(e) => {
                    proof {
                        assert(spec_items::<T>(data@, q0 as int, (k + 1) as nat) == Err::<(Seq<T::V>, int), BinError>(e));
                        lemma_items_err::<T>(data@, q0 as int, (k + 1) as nat, n.0 as nat, e);
                        assert(Self::spec_parse(data@, p as int) == spec_items::<T>(data@, q0 as int, n.0 as nat));
                    }
                    return Err(e);
                },
            }
        }
        Ok((RVec { data: out }, q))
    }

    fn write(&self, out: &mut Vec<u8>) {
        U16(self.data.len() as u16).write(out);
        let ghost mid = out@;
        let mut k: usize = 0;
        while k < self.data.len()
            invariant
                k <= self.data@.len(),
                out@ == mid + ser_items::<T>(self@.subrange(0, k as int)),
            decreases self.data@.len() - k,
        {
            self.data[k].write(out);
            k = k + 1;
            assert(self@.subrange(0, k as int).drop_last() =~= self@.subrange(0, k - 1));
        }
        assert(self@.subrange(0, k as int) =~= self@);
        assert(final(out)@ =~= old(out)@ + Self::spec_ser(self@));
    }

    proof fn lemma_roundtrip(v: Seq<T::V>, s: Seq<u8>, p: int) {
        let h = len_prefix(v.len());
        lemma_subrange_prefix(s, p, h, ser_items::<T>(v));
        U16::lemma_roundtrip(U16(v.len() as u16), s, p);
        lemma_items_roundtrip::<T>(v, s, p + h.len());
    }
}


/// One element of a packet body, of any of the tagged kinds. Text and byte
/// runs are never read by [`DataElement::read`]; only
/// [`DataElement::read_guess`] produces them.
#[derive(Debug, Clone, PartialEq, Eq)]
pub enum DataElement {
    U8(U8),
    U16(U16),
    Bool(RBool),
    U32(U32),
    U64(U64),
    F32(F32),
    Op13(Op13),
    Op1D(BodyParam),
    Op21(Op21),
    Op25(InvSlot),
    Op36(Op36),
    Op3B(Op3B),
    CurrencyData(CurrencyData),
    String(String),
    Bytes(Vec<u8>),
}

/// Mathematical form of [`DataElement`].
pub enum DataElementView {
    U8(U8),
    U16(U16),
    Bool(RBool),
    U32(U32),
    U64(U64),
    F32(F32),
    Op13(Seq<u16>),
    Op1D(BodyParam),
    Op21(Op21),
    Op25(InvSlot),
    Op36(Op36),
    Op3B(Seq<u32>),
    CurrencyData(Seq<u16>),
    String(Seq<char>),
    Bytes(Seq<u8>),
}

impl View for DataElement {
    type V = DataElementView;

    open spec fn view(&self) -> DataElementView {
        match self {
            DataElement::U8(x) => DataElementView::U8(x@),
            DataElement::U16(x) => DataElementView::U16(x@),
            DataElement::Bool(x) => DataElementView::Bool(x@),
            DataElement::U32(x) => DataElementView::U32(x@),
            DataElement::U64(x) => DataElementView::U64(x@),
            DataElement::F32(x) => DataElementView::F32(x@),
            DataElement::Op13(x) => DataElementView::Op13(x@),
            DataElement::Op1D(x) => DataElementView::Op1D(x@),
            DataElement::Op21(x) => DataElementView::Op21(x@),
            DataElement::Op25(x) => DataElementView::Op25(x@),
            DataElement::Op36(x) => DataElementView::Op36(x@),
            DataElement::Op3B(x) => DataElementView::Op3B(x@),
            DataElement::CurrencyData(x) => DataElementView::CurrencyData(x@),
            DataElement::String(x) => DataElementView::String(x@),
            DataElement::Bytes(x) => DataElementView::Bytes(x@),
        }
    }
}

/// Reading one tagged element at `p`; any failure is `NoVariant`.
pub open spec fn spec_read_element(s: Seq<u8>, p: int) -> SpecRead<DataElementView> {
    if p >= s.len() {
        Err(BinError::NoVariant)
    } else {
        if s[p] == 0x01 {
            match U8::spec_parse(s, p) {
                Ok((x, q)) => Ok((DataElementView::U8(x), q)),
                Err(_) => Err(BinError::NoVariant),
            }
        } else if s[p] == 0x02 {
            match U16::spec_parse(s, p) {
                Ok((x, q)) => Ok((DataElementView::U16(x), q)),
                Err(_) => Err(BinError::NoVariant),
            }
        } else if s[p] == 0x03 {
            match RBool::spec_parse(s, p) {
                Ok((x, q)) => Ok((DataElementView::Bool(x), q)),
                Err(_) => Err(BinError::NoVariant),
            }
        } else if s[p] == 0x04 {
            match U32::spec_parse(s, p) {
                Ok((x, q)) => Ok((DataElementView::U32(x), q)),
                Err(_) => Err(BinError::NoVariant),
            }
        } else if s[p] == 0x08 {
            match U64::spec_parse(s, p) {
                Ok((x, q)) => Ok((DataElementView::U64(x), q)),
                Err(_) => Err(BinError::NoVariant),
            }
        } else if s[p] == 0x05 {
            match F32::spec_parse(s, p) {
                Ok((x, q)) => Ok((DataElementView::F32(x), q)),
                Err(_) => Err(BinError::NoVariant),
            }
        } else if s[p] == 0x13 {
            match Op13::spec_parse(s, p) {
                Ok((x, q)) => Ok((DataElementView::Op13(x), q)),
                Err(_) => Err(BinError::NoVariant),
            }
        } else if s[p] == 0x1d {
            match BodyParam::spec_parse(s, p) {
                Ok((x, q)) => Ok((DataElementView::Op1D(x), q)),
                Err(_) => Err(BinError::NoVariant),
            }
        } else if s[p] == 0x21 {
            match Op21::spec_parse(s, p) {
                Ok((x, q)) => Ok((DataElementView::Op21(x), q)),
                Err(_) => Err(BinError::NoVariant),
            }
        } else if s[p] == 0x25 {
            match InvSlot::spec_parse(s, p) {
                Ok((x, q)) => Ok((DataElementView::Op25(x), q)),
                Err(_) => Err(BinError::NoVariant),
            }
        } else if s[p] == 0x36 {
            match Op36::spec_parse(s, p) {
                Ok((x, q)) => Ok((DataElementView::Op36(x), q)),
                Err(_) => Err(BinError::NoVariant),
            }
        } else if s[p] == 0x3b {
            match Op3B::spec_parse(s, p) {
                Ok((x, q)) => Ok((DataElementView::Op3B(x), q)),
                Err(_) => Err(BinError::NoVariant),
            }
        } else if s[p] == 0x6c {
            match CurrencyData::spec_parse(s, p) {
                Ok((x, q)) => Ok((DataElementView::CurrencyData(x), q)),
                Err(_) => Err(BinError::NoVariant),
            }
        } else {
            Err(BinError::NoVariant)
        }
    }
}

/// Guessing one element at `p`. A nonzero u16 that is followed by that many
/// bytes, and then by another readable element or the end of the data, is
/// taken as a byte run: text where it is UTF-8, bytes otherwise. Every other
/// u16 stays a plain u16 of three bytes.
pub open spec fn spec_read_guess(s: Seq<u8>, p: int) -> SpecRead<DataElementView> {
    match spec_read_element(s, p) {
        Err(e) => Err(e),
        Ok((DataElementView::U16(U16(d)), q)) => {
            let end = q + d;
            if d != 0 && end <= s.len() && (end == s.len() || spec_read_element(s, end) is Ok) {
                let b = s.subrange(q, end);
                if valid_utf8(b) {
                    Ok((DataElementView::String(decode_utf8(b)), end))
                } else {
                    Ok((DataElementView::Bytes(b), end))
                }
            } else {
                Ok((DataElementView::U16(U16(d)), p + 3))
            }
        },
        Ok((other, q)) => Ok((other, q)),
    }
}

/// Byte-run law of guessing: a u16 element (tag 2) holding a nonzero
/// length `d`, followed by `d` bytes and then by a readable element or the
/// end of the data, is guessed as those `d` bytes: a string of their
/// characters where they are UTF-8, otherwise the bytes themselves; the
/// guess ends after them, never at the plain u16.
pub proof fn lemma_guess_byte_run(s: Seq<u8>, p: int)
    requires
        0 <= p,
        p + 3 <= s.len(),
        s[p] == 0x02,
        le16(s, p + 1) != 0,
        p + 3 + le16(s, p + 1) <= s.len(),
        p + 3 + le16(s, p + 1) == s.len() || spec_read_element(s, p + 3 + le16(s, p + 1)) is Ok,
    ensures
        ({
            let end = p + 3 + le16(s, p + 1);
            let b = s.subrange(p + 3, end);
            &&& valid_utf8(b) ==> spec_read_guess(s, p) == Ok::<(DataElementView, int), BinError>((
                DataElementView::String(decode_utf8(b)),
                end,
            ))
            &&& !valid_utf8(b) ==> spec_read_guess(s, p) == Ok::<(DataElementView, int), BinError>((
                DataElementView::Bytes(b),
                end,
            ))
        }),
{
}

/// Guessing elements from `p` to the end of the data.
pub open spec fn spec_read_guess_all(s: Seq<u8>, p: int) -> Result<Seq<DataElementView>, BinError>
    decreases s.len() - p,
{
    if p >= s.len() {
        Ok(Seq::empty())
    } else {
        match spec_read_guess(s, p) {
            Err(e) => Err(e),
            Ok((v, q)) => if p < q <= s.len() {
                match spec_read_guess_all(s, q) {
                    Ok(vs) => Ok(seq![v] + vs),
                    Err(e) => Err(e),
                }
            } else {
                Ok(seq![v])
            },
        }
    }
}

impl DataElement {
    /// Reads one tagged element at `p`.
    pub fn read(data: &[u8], p: usize) -> (r: Result<(DataElement, usize), BinError>)
        requires
            p <= data@.len(),
        ensures
            r matches Ok((_, q)) ==> p <= q <= data@.len(),
            match r {
                Ok((v, q)) => spec_read_element(data@, p as int) == Ok::<(DataElementView, int), BinError>((v@, q as int)),
                Err(e) => spec_read_element(data@, p as int) == Err::<(DataElementView, int), BinError>(e),
            },
    {
        if p >= data.len() {
            return Err(BinError::NoVariant);
        }
        let tag = data[p];
        if tag == 0x01 {
            match U8::parse(data, p) {
                Ok((x, q)) => Ok((DataElement::U8(x), q)),
                Err(_) => Err(BinError::NoVariant),
            }
        } else if tag == 0x02 {
            match U16::parse(data, p) {
                Ok((x, q)) => Ok((DataElement::U16(x), q)),
                Err(_) => Err(BinError::NoVariant),
            }
        } else if tag == 0x03 {
            match RBool::parse(data, p) {
                Ok((x, q)) => Ok((DataElement::Bool(x), q)),
                Err(_) => Err(BinError::NoVariant),
            }
        } else if tag == 0x04 {
            match U32::parse(data, p) {
                Ok((x, q)) => Ok((DataElement::U32(x), q)),
                Err(_) => Err(BinError::NoVariant),
            }
        } else if tag == 0x08 {
            match U64::parse(data, p) {
                Ok((x, q)) => Ok((DataElement::U64(x), q)),
                Err(_) => Err(BinError::NoVariant),
            }
        } else if tag == 0x05 {
            match F32::parse(data, p) {
                Ok((x, q)) => Ok((DataElement::F32(x), q)),
                Err(_) => Err(BinError::NoVariant),
            }
        } else if tag == 0x13 {
            match Op13::parse(data, p) {
                Ok((x, q)) => Ok((DataElement::Op13(x), q)),
                Err(_) => Err(BinError::NoVariant),
            }
        } else if tag == 0x1d {
            match BodyParam::parse(data, p) {
                Ok((x, q)) => Ok((DataElement::Op1D(x), q)),
                Err(_) => Err(BinError::NoVariant),
            }
        } else if tag == 0x21 {
            match Op21::parse(data, p) {
                Ok((x, q)) => Ok((DataElement::Op21(x), q)),
                Err(_) => Err(BinError::NoVariant),
            }
        } else if tag == 0x25 {
            match InvSlot::parse(data, p) {
                Ok((x, q)) => Ok((DataElement::Op25(x), q)),
                Err(_) => Err(BinError::NoVariant),
            }
        } else if tag == 0x36 {
            match Op36::parse(data, p) {
                Ok((x, q)) => Ok((DataElement::Op36(x), q)),
                Err(_) => Err(BinError::NoVariant),
            }
        } else if tag == 0x3b {
            match Op3B::parse(data, p) {
                Ok((x, q)) => Ok((DataElement::Op3B(x), q)),
                Err(_) => Err(BinError::NoVariant),
            }
        } else if tag == 0x6c {
            match CurrencyData::parse(data, p) {
                Ok((x, q)) => Ok((DataElement::CurrencyData(x), q)),
                Err(_) => Err(BinError::NoVariant),
            }
        } else {
            Err(BinError::NoVariant)
        }
    }

    /// Reads one element at `p`, guessing whether a u16 starts a byte run.
    pub fn read_guess(data: &[u8], p: usize) -> (r: Result<(DataElement, usize), BinError>)
        requires
            p <= data@.len(),
        ensures
            r matches Ok((_, q)) ==> p <= q <= data@.len(),
            match r {
                Ok((v, q)) => spec_read_guess(data@, p as int) == Ok::<(DataElementView, int), BinError>((v@, q as int)),
                Err(e) => spec_read_guess(data@, p as int) == Err::<(DataElementView, int), BinError>(e),
            },
    {
        let (elem, q) = DataElement::read(data, p)?;
        match elem {
            DataElement::U16(U16(d)) => {
                if d != 0 && data.len() - q >= d as usize {
                    let end = q + d as usize;
                    let bytes = copy_range(data, q, end);
                    let eof = end == data.len();
                    let next = DataElement::read(data, end);
                    if next.is_ok() || eof {
                        match string_from_utf8(bytes) {
                            Ok(st) => {
                                return Ok((DataElement::String(st), end));
                            },
                            Err(b) => {
                                return Ok((DataElement::Bytes(b), end));
                            },
                        }
                    }
                }
                Ok((DataElement::U16(U16(d)), p + 3))
            },
            other => Ok((other, q)),
        }
    }
}

/// Guesses the elements of `data` from its start to its end.
pub fn read_guess_all(data: &[u8]) -> (r: Result<Vec<DataElement>, BinError>)
    ensures
        match r {
            Ok(v) => spec_read_guess_all(data@, 0) == Ok::<Seq<DataElementView>, BinError>(
                v@.map_values(|e: DataElement| e@),
            ),
            Err(e) => spec_read_guess_all(data@, 0) == Err::<Seq<DataElementView>, BinError>(e),
        },
{
    let mut out: Vec<DataElement> = Vec::new();
    let mut pos: usize = 0;
    assert(out@.map_values(|e: DataElement| e@) =~= Seq::<DataElementView>::empty());
    while pos != data.len()
        invariant
            pos <= data@.len(),
            spec_read_guess_all(data@, 0) == (match spec_read_guess_all(data@, pos as int) {
                Ok(vs) => Ok::<Seq<DataElementView>, BinError>(out@.map_values(|e: DataElement| e@) + vs),
                Err(x) => Err::<Seq<DataElementView>, BinError>(x),
            }),
        decreases data@.len() - pos,
    {
        let ghost before = out@.map_values(|e: DataElement| e@);
        let (next, q) = DataElement::read_guess(data, pos)?;
        out.push(next);
        proof {
            assert(out@.map_values(|e: DataElement| e@) =~= before.push(next@));
            match spec_read_guess_all(data@, q as int) {
                Ok(vs) => {
                    assert(before + (seq![next@] + vs) =~= before.push(next@) + vs);
                },
                Err(_) => {},
            }
        }
        pos = q;
    }
    assert(out@.map_values(|e: DataElement| e@) + Seq::<DataElementView>::empty()
        =~= out@.map_values(|e: DataElement| e@));
    Ok(out)
}


/// Reads `n` items one after another from `p`, with no count before them.
pub fn parse_items<T: Wire>(data: &[u8], p: usize, n: usize) -> (r: Result<(Vec<T>, usize), BinError>)
    requires
        p <= data@.len(),
    ensures
        r matches Ok((_, q)) ==> p <= q <= data@.len(),
        match r {
            Ok((v, q)) => spec_items::<T>(data@, p as int, n as nat) == Ok::<(Seq<T::V>, int), BinError>(
                (v@.map_values(|x: T| x@), q as int),
            ),
            Err(e) => spec_items::<T>(data@, p as int, n as nat) == Err::<(Seq<T::V>, int), BinError>(e),
        },
{
    let mut out: Vec<T> = Vec::new();
    let mut q = p;
    let mut k: usize = 0;
    assert(out@.map_values(|x: T| x@) =~= Seq::<T::V>::empty());
    while k < n
        invariant
            k <= n,
            p <= q <= data@.len(),
            spec_items::<T>(data@, p as int, k as nat) == Ok::<(Seq<T::V>, int), BinError>(
                (out@.map_values(|x: T| x@), q as int),
            ),
        decreases n - k,
    {
        let ghost before = out@.map_values(|x: T| x@);
        match T::parse(data, q) {
            Ok((x, q2)) => {
                out.push(x);
                q = q2;
                k = k + 1;
                assert(out@.map_values(|x: T| x@) =~= before.push(x@));
            },
            Err(e) => {
                proof {
                    assert(spec_items::<T>(data@, p as int, (k + 1) as nat) == Err::<(Seq<T::V>, int), BinError>(e));
                    lemma_items_err::<T>(data@, p as int, (k + 1) as nat, n as nat, e);
                }
                return Err(e);
            },
        }
    }
    Ok((out, q))
}

/// Writes items one after another, with no count before them.
pub fn write_items<T: Wire>(out: &mut Vec<u8>, v: &Vec<T>)
    ensures
        final(out)@ == old(out)@ + ser_items::<T>(v@.map_values(|x: T| x@)),
{
    let ghost vv = v@.map_values(|x: T| x@);
    let mut k: usize = 0;
    while k < v.len()
        invariant
            k <= v@.len(),
            vv == v@.map_values(|x: T| x@),
            out@ == old(out)@ + ser_items::<T>(vv.subrange(0, k as int)),
        decreases v@.len() - k,
    {
        v[k].write(out);
        k = k + 1;
        assert(vv.subrange(0, k as int).drop_last() =~= vv.subrange(0, k - 1));
    }
    assert(vv.subrange(0, k as int) =~= vv);
}

/// The view of an optional value.
pub open spec fn opt_view<T: View>(o: Option<T>) -> Option<T::V> {
    match o {
        Some(x) => Some(x@),
        None => None,
    }
}

} // verus!
