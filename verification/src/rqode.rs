//! Reader for the opcode-prefixed element stream found in packet bodies.
//!
//! Every element starts with an opcode byte that tells its payload:
//! `0x01` u8, `0x02` u16, `0x03` bool byte, `0x04` u32, `0x08` u64,
//! `0x05` u32, `0x21` u32 and `0x36` a u32 followed by a u16, all
//! little-endian. Strings and byte arrays are a u16 element giving the length
//! followed by that many raw bytes.
use vstd::prelude::*;
use vstd::utf8::*;
use crate::le::{le16, le32, le64, read_le16, read_le32, read_le64};
use crate::text::{strip_nul, string_from_utf8, drop_trailing_nul, vec_of_zeros};

verus! {

/// The opcodes of the element stream.
#[derive(Clone, Copy, Debug, PartialEq, Eq, Structural)]
pub enum DataOpcode {
    /// Single u8 byte
    U8,
    /// u16 length, usually before variable data
    U16,
    /// Single u8 byte (bool?)
    Bool,
    /// Single u32
    U32,
    /// Single u64
    U64,
    /// Single u32
    Op05,
    /// Tuple (u32, u16)
    Op36,
    /// Single u32, maybe chat id
    Op21,
}

impl DataOpcode {
    /// The opcode named by a byte, if it names one.
    pub open spec fn spec_from_u8(b: u8) -> Option<DataOpcode> {
        if b == 0x01 {
            Some(DataOpcode::U8)
        } else if b == 0x02 {
            Some(DataOpcode::U16)
        } else if b == 0x03 {
            Some(DataOpcode::Bool)
        } else if b == 0x04 {
            Some(DataOpcode::U32)
        } else if b == 0x08 {
            Some(DataOpcode::U64)
        } else if b == 0x05 {
            Some(DataOpcode::Op05)
        } else if b == 0x36 {
            Some(DataOpcode::Op36)
        } else if b == 0x21 {
            Some(DataOpcode::Op21)
        } else {
            None
        }
    }

    /// The byte of an opcode.
    pub open spec fn spec_code(self) -> u8 {
        match self {
            DataOpcode::U8 => 0x01,
            DataOpcode::U16 => 0x02,
            DataOpcode::Bool => 0x03,
            DataOpcode::U32 => 0x04,
            DataOpcode::U64 => 0x08,
            DataOpcode::Op05 => 0x05,
            DataOpcode::Op36 => 0x36,
            DataOpcode::Op21 => 0x21,
        }
    }

    /// The number of payload bytes after the opcode byte.
    pub open spec fn payload_len(self) -> nat {
        match self {
            DataOpcode::U8 => 1,
            DataOpcode::U16 => 2,
            DataOpcode::Bool => 1,
            DataOpcode::U32 => 4,
            DataOpcode::U64 => 8,
            DataOpcode::Op05 => 4,
            DataOpcode::Op36 => 6,
            DataOpcode::Op21 => 4,
        }
    }

    pub fn from_u8(b: u8) -> (r: Option<DataOpcode>)
        ensures
            r == Self::spec_from_u8(b),
    {
        if b == 0x01 {
            Some(DataOpcode::U8)
        } else if b == 0x02 {
            Some(DataOpcode::U16)
        } else if b == 0x03 {
            Some(DataOpcode::Bool)
        } else if b == 0x04 {
            Some(DataOpcode::U32)
        } else if b == 0x08 {
            Some(DataOpcode::U64)
        } else if b == 0x05 {
            Some(DataOpcode::Op05)
        } else if b == 0x36 {
            Some(DataOpcode::Op36)
        } else if b == 0x21 {
            Some(DataOpcode::Op21)
        } else {
            None
        }
    }

    pub fn code(self) -> (r: u8)
        ensures
            r == self.spec_code(),
    {
        match self {
            DataOpcode::U8 => 0x01,
            DataOpcode::U16 => 0x02,
            DataOpcode::Bool => 0x03,
            DataOpcode::U32 => 0x04,
            DataOpcode::U64 => 0x08,
            DataOpcode::Op05 => 0x05,
            DataOpcode::Op36 => 0x36,
            DataOpcode::Op21 => 0x21,
        }
    }
}

/// Code law: an opcode's byte names that opcode again.
pub proof fn lemma_opcode_code_roundtrip(o: DataOpcode)
    ensures
        DataOpcode::spec_from_u8(o.spec_code()) == Some(o),
{
}

/// One element of the stream.
#[derive(Clone, Copy, Debug, PartialEq, Eq, Structural)]
pub enum DataElement {
    U8(u8),
    U16(u16),
    Bool(u8),
    U32(u32),
    U64(u64),
    Op05(u32),
    Op21(u32),
    Op36(u32, u16),
}

impl View for DataElement {
    type V = DataElement;

    open spec fn view(&self) -> DataElement {
        *self
    }
}

/// An element as guessed by [`RQParser::read_guess`]: a plain element, or a
/// u16-prefixed run of bytes, decoded as text where it is UTF-8.
#[derive(Clone, Debug, PartialEq, Eq)]
pub enum DataElementComposite {
    U8(u8),
    Bool(u8),
    U16(u16),
    U32(u32),
    U64(u64),
    Bytes(Vec<u8>),
    String(String),
    Op05(u32),
    Op21(u32),
    Op36(u32, u16),
}

/// Mathematical form of [`DataElementComposite`].
pub enum CompositeView {
    U8(u8),
    Bool(u8),
    U16(u16),
    U32(u32),
    U64(u64),
    Bytes(Seq<u8>),
    String(Seq<char>),
    Op05(u32),
    Op21(u32),
    Op36(u32, u16),
}

impl View for DataElementComposite {
    type V = CompositeView;

    open spec fn view(&self) -> CompositeView {
        match self {
            DataElementComposite::U8(d) => CompositeView::U8(*d),
            DataElementComposite::Bool(d) => CompositeView::Bool(*d),
            DataElementComposite::U16(d) => CompositeView::U16(*d),
            DataElementComposite::U32(d) => CompositeView::U32(*d),
            DataElementComposite::U64(d) => CompositeView::U64(*d),
            DataElementComposite::Bytes(b) => CompositeView::Bytes(b@),
            DataElementComposite::String(s) => CompositeView::String(s@),
            DataElementComposite::Op05(d) => CompositeView::Op05(*d),
            DataElementComposite::Op21(d) => CompositeView::Op21(*d),
            DataElementComposite::Op36(a, b) => CompositeView::Op36(*a, *b),
        }
    }
}

/// The composite form of a plain element.
pub open spec fn element_view(e: DataElement) -> CompositeView {
    match e {
        DataElement::U8(d) => CompositeView::U8(d),
        DataElement::U16(d) => CompositeView::U16(d),
        DataElement::Bool(d) => CompositeView::Bool(d),
        DataElement::U32(d) => CompositeView::U32(d),
        DataElement::U64(d) => CompositeView::U64(d),
        DataElement::Op21(d) => CompositeView::Op21(d),
        DataElement::Op36(a, b) => CompositeView::Op36(a, b),
        DataElement::Op05(d) => CompositeView::Op05(d),
    }
}

impl DataElementComposite {
    /// The composite holding a plain element.
    pub fn from_element(value: DataElement) -> (r: Self)
        ensures
            r@ == element_view(value),
    {
        match value {
            DataElement::U8(d) => DataElementComposite::U8(d),
            DataElement::U16(d) => DataElementComposite::U16(d),
            DataElement::Bool(d) => DataElementComposite::Bool(d),
            DataElement::U32(d) => DataElementComposite::U32(d),
            DataElement::U64(d) => DataElementComposite::U64(d),
            DataElement::Op21(d) => DataElementComposite::Op21(d),
            DataElement::Op36(a, b) => DataElementComposite::Op36(a, b),
            DataElement::Op05(d) => DataElementComposite::Op05(d),
        }
    }
}

/// Errors of the element reader.
#[derive(Debug)]
pub enum ParseError {
    /// The data ended before the element did.
    IO,
    /// An unknown opcode, with the position just after it.
    UnknownOpcode(u8, usize),
    /// A byte array did not start with a u16 length element.
    InvalidByteArrayStart(DataElement),
    Custom(String),
    /// Bytes were left after reading.
    TrailingBytes,
    /// An element of another kind than expected.
    InvalidElement(DataElement),
    /// Bytes that are not UTF-8 where text was expected.
    Utf8(Vec<u8>),
}

/// Mathematical form of [`ParseError`].
pub enum ParseErrorView {
    IO,
    UnknownOpcode(u8, usize),
    InvalidByteArrayStart(DataElement),
    Custom(Seq<char>),
    TrailingBytes,
    InvalidElement(DataElement),
    Utf8(Seq<u8>),
}

impl View for ParseError {
    type V = ParseErrorView;

    open spec fn view(&self) -> ParseErrorView {
        match self {
            ParseError::IO => ParseErrorView::IO,
            ParseError::UnknownOpcode(b, p) => ParseErrorView::UnknownOpcode(*b, *p),
            ParseError::InvalidByteArrayStart(e) => ParseErrorView::InvalidByteArrayStart(*e),
            ParseError::Custom(s) => ParseErrorView::Custom(s@),
            ParseError::TrailingBytes => ParseErrorView::TrailingBytes,
            ParseError::InvalidElement(e) => ParseErrorView::InvalidElement(*e),
            ParseError::Utf8(b) => ParseErrorView::Utf8(b@),
        }
    }
}

pub type ParseResult<T> = Result<T, ParseError>;

/// The view of a result: the value's view, or the error's view.
pub open spec fn result_view<T: View>(r: Result<T, ParseError>) -> Result<T::V, ParseErrorView> {
    match r {
        Ok(v) => Ok(v@),
        Err(e) => Err(e@),
    }
}

/// The payload of an element with opcode `o` whose payload starts at `q`.
pub open spec fn spec_payload(s: Seq<u8>, q: int, o: DataOpcode) -> DataElement {
    match o {
        DataOpcode::U8 => DataElement::U8(s[q]),
        DataOpcode::U16 => DataElement::U16(le16(s, q)),
        DataOpcode::Bool => DataElement::Bool(s[q]),
        DataOpcode::U32 => DataElement::U32(le32(s, q)),
        DataOpcode::U64 => DataElement::U64(le64(s, q)),
        DataOpcode::Op05 => DataElement::Op05(le32(s, q)),
        DataOpcode::Op36 => DataElement::Op36(le32(s, q), le16(s, q + 4)),
        DataOpcode::Op21 => DataElement::Op21(le32(s, q)),
    }
}

/// Reading one element at `p`: the result and the position afterwards.
/// A short read leaves the position at the end of the data.
pub open spec fn spec_next_element(s: Seq<u8>, p: int) -> (Result<DataElement, ParseErrorView>, int) {
    if p >= s.len() {
        (Err(ParseErrorView::IO), s.len() as int)
    } else {
        match DataOpcode::spec_from_u8(s[p]) {
            None => (Err(ParseErrorView::UnknownOpcode(s[p], (p + 1) as usize)), p + 1),
            Some(o) => if p + 1 + o.payload_len() <= s.len() {
                (Ok(spec_payload(s, p + 1, o)), p + 1 + o.payload_len())
            } else {
                (Err(ParseErrorView::IO), s.len() as int)
            },
        }
    }
}

/// Reading a byte array at `p`: a u16 length element, then that many bytes.
pub open spec fn spec_byte_array(s: Seq<u8>, p: int) -> (Result<Seq<u8>, ParseErrorView>, int) {
    let (e, q) = spec_next_element(s, p);
    match e {
        Err(x) => (Err(x), q),
        Ok(DataElement::U16(n)) => if q + n <= s.len() {
            (Ok(s.subrange(q, q + n)), q + n)
        } else {
            (Err(ParseErrorView::IO), s.len() as int)
        },
        Ok(other) => (Err(ParseErrorView::InvalidByteArrayStart(other)), q),
    }
}

/// Reading a string at `p`: a byte array decoded as UTF-8, one trailing
/// NUL character dropped.
pub open spec fn spec_string(s: Seq<u8>, p: int) -> (Result<Seq<char>, ParseErrorView>, int) {
    let (b, q) = spec_byte_array(s, p);
    match b {
        Err(x) => (Err(x), q),
        Ok(bytes) => if valid_utf8(bytes) {
            (Ok(strip_nul(decode_utf8(bytes))), q)
        } else {
            (Err(ParseErrorView::Utf8(bytes)), q)
        },
    }
}

/// Guessing one element at `p`. A nonzero u16 that is followed by that many
/// bytes, and then by a valid opcode or the end of the data, is taken as a
/// byte run: text where it is UTF-8 (one trailing NUL dropped), bytes
/// otherwise. Every other u16 stays a plain u16 of three bytes.
pub open spec fn spec_guess(s: Seq<u8>, p: int) -> (Result<CompositeView, ParseErrorView>, int) {
    let (e, q) = spec_next_element(s, p);
    match e {
        Err(x) => (Err(x), q),
        Ok(DataElement::U16(d)) => {
            let end = q + d;
            if d != 0 && end <= s.len() && (end == s.len() || DataOpcode::spec_from_u8(s[end])
                is Some) {
                let b = s.subrange(q, end);
                if valid_utf8(b) {
                    (Ok(CompositeView::String(strip_nul(decode_utf8(b)))), end)
                } else {
                    (Ok(CompositeView::Bytes(b)), end)
                }
            } else {
                (Ok(CompositeView::U16(d)), p + 3)
            }
        },
        Ok(other) => (Ok(element_view(other)), q),
    }
}

/// Guessing elements from `p` until the end of the data.
pub open spec fn spec_guess_all(s: Seq<u8>, p: int) -> (Result<Seq<CompositeView>, ParseErrorView>, int)
    decreases s.len() - p,
{
    if p >= s.len() {
        (Ok(Seq::empty()), p)
    } else {
        let (r, q) = spec_guess(s, p);
        match r {
            Err(x) => (Err(x), q),
            Ok(v) => if p < q <= s.len() {
                let (rest, f) = spec_guess_all(s, q);
                match rest {
                    Ok(vs) => (Ok(seq![v] + vs), f),
                    Err(x) => (Err(x), f),
                }
            } else {
                (Ok(seq![v]), q)
            },
        }
    }
}

/// Progress law: a successful read of one element moves forward and stays
/// within the data.
pub proof fn lemma_next_element_progress(s: Seq<u8>, p: int)
    requires
        0 <= p < s.len(),
    ensures
        p < spec_next_element(s, p).1 <= s.len(),
        spec_next_element(s, p).0 is Ok ==> spec_next_element(s, p).1 >= p + 2,
{
}

/// Progress law for guesses: a successful guess moves forward by at least
/// two bytes and stays within the data.
pub proof fn lemma_guess_progress(s: Seq<u8>, p: int)
    requires
        0 <= p < s.len(),
    ensures
        spec_guess(s, p).0 is Ok ==> p + 2 <= spec_guess(s, p).1 <= s.len(),
{
}

/// Reader over an owned byte buffer with a read position.
pub struct RQParser {
    data: Vec<u8>,
    pos: usize,
}

impl RQParser {
    #[verifier::type_invariant]
    spec fn wf(self) -> bool {
        self.pos <= self.data@.len()
    }

    /// The bytes being read.
    pub closed spec fn spec_data(self) -> Seq<u8> {
        self.data@
    }

    /// The read position.
    pub closed spec fn spec_pos(self) -> int {
        self.pos as int
    }

    pub fn new(data: Vec<u8>) -> (r: Self)
        ensures
            r.spec_data() == data@,
            r.spec_pos() == 0,
    {
        RQParser { data, pos: 0 }
    }

    pub fn read_u8(&mut self) -> (r: ParseResult<u8>)
        ensures
            final(self).spec_data() == old(self).spec_data(),
            (result_view(r), final(self).spec_pos()) == (if old(self).spec_pos() < old(
                self,
            ).spec_data().len() {
                (Ok::<u8, ParseErrorView>(old(self).spec_data()[old(self).spec_pos()]), old(self).spec_pos() + 1)
            } else {
                (Err::<u8, ParseErrorView>(ParseErrorView::IO), old(self).spec_data().len() as int)
            }),
    {
        proof { use_type_invariant(&*self); }
        if self.pos < self.data.len() {
            let b = self.data[self.pos];
            self.pos = self.pos + 1;
            Ok(b)
        } else {
            self.pos = self.data.len();
            Err(ParseError::IO)
        }
    }

    pub fn read_u16(&mut self) -> (r: ParseResult<u16>)
        ensures
            final(self).spec_data() == old(self).spec_data(),
            (result_view(r), final(self).spec_pos()) == (if old(self).spec_pos() + 2 <= old(
                self,
            ).spec_data().len() {
                (Ok::<u16, ParseErrorView>(le16(old(self).spec_data(), old(self).spec_pos())), old(self).spec_pos() + 2)
            } else {
                (Err::<u16, ParseErrorView>(ParseErrorView::IO), old(self).spec_data().len() as int)
            }),
    {
        proof { use_type_invariant(&*self); }
        if self.data.len() - self.pos >= 2 {
            let v = read_le16(self.data.as_slice(), self.pos);
            self.pos = self.pos + 2;
            Ok(v)
        } else {
            self.pos = self.data.len();
            Err(ParseError::IO)
        }
    }

    pub fn read_u32(&mut self) -> (r: ParseResult<u32>)
        ensures
            final(self).spec_data() == old(self).spec_data(),
            (result_view(r), final(self).spec_pos()) == (if old(self).spec_pos() + 4 <= old(
                self,
            ).spec_data().len() {
                (Ok::<u32, ParseErrorView>(le32(old(self).spec_data(), old(self).spec_pos())), old(self).spec_pos() + 4)
            } else {
                (Err::<u32, ParseErrorView>(ParseErrorView::IO), old(self).spec_data().len() as int)
            }),
    {
        proof { use_type_invariant(&*self); }
        if self.data.len() - self.pos >= 4 {
            let v = read_le32(self.data.as_slice(), self.pos);
            self.pos = self.pos + 4;
            Ok(v)
        } else {
            self.pos = self.data.len();
            Err(ParseError::IO)
        }
    }

    pub fn read_u64(&mut self) -> (r: ParseResult<u64>)
        ensures
            final(self).spec_data() == old(self).spec_data(),
            (result_view(r), final(self).spec_pos()) == (if old(self).spec_pos() + 8 <= old(
                self,
            ).spec_data().len() {
                (Ok::<u64, ParseErrorView>(le64(old(self).spec_data(), old(self).spec_pos())), old(self).spec_pos() + 8)
            } else {
                (Err::<u64, ParseErrorView>(ParseErrorView::IO), old(self).spec_data().len() as int)
            }),
    {
        proof { use_type_invariant(&*self); }
        if self.data.len() - self.pos >= 8 {
            let v = read_le64(self.data.as_slice(), self.pos);
            self.pos = self.pos + 8;
            Ok(v)
        } else {
            self.pos = self.data.len();
            Err(ParseError::IO)
        }
    }

    /// Fills `buf` with the next `buf.len()` bytes. When fewer are left,
    /// fails with `IO`, leaves `buf` as it was and moves to the end.
    pub fn read_bytes(&mut self, buf: &mut [u8]) -> (r: Result<(), ParseError>)
        ensures
            final(self).spec_data() == old(self).spec_data(),
            old(self).spec_pos() + old(buf)@.len() <= old(self).spec_data().len() ==> {
                &&& r is Ok
                &&& final(buf)@ == old(self).spec_data().subrange(
                    old(self).spec_pos(),
                    old(self).spec_pos() + old(buf)@.len(),
                )
                &&& final(self).spec_pos() == old(self).spec_pos() + old(buf)@.len()
            },
            old(self).spec_pos() + old(buf)@.len() > old(self).spec_data().len() ==> {
                &&& r matches Err(ParseError::IO)
                &&& final(buf)@ == old(buf)@
                &&& final(self).spec_pos() == old(self).spec_data().len()
            },
    {
        proof { use_type_invariant(&*self); }
        let n = buf.len();
        if self.data.len() - self.pos < n {
            self.pos = self.data.len();
            return Err(ParseError::IO);
        }
        let total = self.data.len();
        let mut k: usize = 0;
        while k < n
            invariant
                k <= n,
                n == buf@.len(),
                total == self.data@.len(),
                self.pos + n <= total,
                forall|m: int|
                    0 <= m < k ==> buf@[m] == self.data@[self.pos + m],
            decreases n - k,
        {
            buf[k] = self.data[self.pos + k];
            k = k + 1;
        }
        assert(buf@ =~= self.data@.subrange(self.pos as int, self.pos + n));
        self.pos = self.pos + n;
        Ok(())
    }

    /// The read position.
    pub fn pos(&self) -> (r: usize)
        ensures
            r == self.spec_pos(),
    {
        self.pos
    }

    fn set_position(&mut self, p: usize)
        requires
            p <= old(self).spec_data().len(),
        ensures
            final(self).spec_data() == old(self).spec_data(),
            final(self).spec_pos() == p,
    {
        self.pos = p;
    }

    /// Whether bytes are left after the read position.
    pub fn has_data(&self) -> (r: bool)
        ensures
            r == (self.spec_pos() < self.spec_data().len()),
    {
        self.pos < self.data.len()
    }

    /// Reads the next opcode-prefixed element.
    pub fn read_next_element(&mut self) -> (r: ParseResult<DataElement>)
        ensures
            final(self).spec_data() == old(self).spec_data(),
            (result_view(r), final(self).spec_pos()) == spec_next_element(
                old(self).spec_data(),
                old(self).spec_pos(),
            ),
    {
        proof { use_type_invariant(&*self); }
        let ghost s = self.data@;
        let ghost p = self.pos as int;
        let opcode = self.read_u8()?;
        let opcode_kind = match DataOpcode::from_u8(opcode) {
            Some(o) => o,
            None => {
                return Err(ParseError::UnknownOpcode(opcode, self.pos()));
            },
        };
        let res = match opcode_kind {
            DataOpcode::U8 => DataElement::U8(self.read_u8()?),
            DataOpcode::U16 => DataElement::U16(self.read_u16()?),
            DataOpcode::Bool => DataElement::Bool(self.read_u8()?),
            DataOpcode::U32 => DataElement::U32(self.read_u32()?),
            DataOpcode::U64 => DataElement::U64(self.read_u64()?),
            DataOpcode::Op05 => DataElement::Op05(self.read_u32()?),
            DataOpcode::Op21 => DataElement::Op21(self.read_u32()?),
            DataOpcode::Op36 => {
                let a = self.read_u32()?;
                let b = self.read_u16()?;
                DataElement::Op36(a, b)
            },
        };
        Ok(res)
    }

    /// Reads the next element as a byte array: a u16 length, then the bytes.
    pub fn read_byte_array(&mut self) -> (r: ParseResult<Vec<u8>>)
        ensures
            final(self).spec_data() == old(self).spec_data(),
            (result_view(r), final(self).spec_pos()) == spec_byte_array(
                old(self).spec_data(),
                old(self).spec_pos(),
            ),
    {
        let start = self.read_next_element()?;
        let len = match start {
            DataElement::U16(len) => len,
            _ => {
                return Err(ParseError::InvalidByteArrayStart(start));
            },
        };
        let mut data = vec_of_zeros(len as usize);
        self.read_bytes(data.as_mut_slice())?;
        Ok(data)
    }

    /// Reads the next element as a byte array and decodes it as UTF-8,
    /// dropping one trailing NUL.
    pub fn read_string(&mut self) -> (r: ParseResult<String>)
        ensures
            final(self).spec_data() == old(self).spec_data(),
            (result_view(r), final(self).spec_pos()) == spec_string(
                old(self).spec_data(),
                old(self).spec_pos(),
            ),
    {
        let data = self.read_byte_array()?;
        let mut s = match string_from_utf8(data) {
            Ok(s) => s,
            Err(bytes) => {
                return Err(ParseError::Utf8(bytes));
            },
        };
        drop_trailing_nul(&mut s);
        Ok(s)
    }

    /// Reads the next element, guessing whether a u16 starts a byte run.
    pub fn read_guess(&mut self) -> (r: ParseResult<DataElementComposite>)
        ensures
            final(self).spec_data() == old(self).spec_data(),
            (result_view(r), final(self).spec_pos()) == spec_guess(
                old(self).spec_data(),
                old(self).spec_pos(),
            ),
    {
        proof { use_type_invariant(&*self); }
        let ghost s = self.data@;
        let bpos = self.pos;
        let elem = self.read_next_element()?;
        match elem {
            DataElement::U16(d) => {
                if d != 0 {
                    self.set_position(bpos);
                    match self.read_byte_array() {
                        Ok(b) => {
                            let bpos2 = self.pos;
                            let next = self.read_u8();
                            self.set_position(bpos2);
                            let opcode_next = match next {
                                Ok(op) => DataOpcode::from_u8(op).is_some(),
                                Err(_) => false,
                            };
                            if opcode_next || !self.has_data() {
                                match string_from_utf8(b) {
                                    Ok(mut st) => {
                                        drop_trailing_nul(&mut st);
                                        return Ok(DataElementComposite::String(st));
                                    },
                                    Err(bytes) => {
                                        return Ok(DataElementComposite::Bytes(bytes));
                                    },
                                }
                            }
                        },
                        Err(_) => {},
                    }
                }
                self.set_position(bpos + 3);
                Ok(DataElementComposite::U16(d))
            },
            other => Ok(DataElementComposite::from_element(other)),
        }
    }

    /// Guesses elements until the end of the data.
    pub fn read_guess_all(&mut self) -> (r: ParseResult<Vec<DataElementComposite>>)
        ensures
            final(self).spec_data() == old(self).spec_data(),
            r is Ok ==> spec_guess_all(old(self).spec_data(), old(self).spec_pos()).0 == Ok::<
                Seq<CompositeView>,
                ParseErrorView,
            >(r->Ok_0@.map_values(|e: DataElementComposite| e@)),
            r is Err ==> spec_guess_all(old(self).spec_data(), old(self).spec_pos()).0 == Err::<
                Seq<CompositeView>,
                ParseErrorView,
            >(r->Err_0@),
            final(self).spec_pos() == spec_guess_all(
                old(self).spec_data(),
                old(self).spec_pos(),
            ).1,
    {
        proof { use_type_invariant(&*self); }
        let ghost s = self.data@;
        let ghost p0 = self.pos as int;
        let mut out: Vec<DataElementComposite> = Vec::new();
        while self.has_data()
            invariant
                self.spec_data() == s,
                s == old(self).spec_data(),
                p0 == old(self).spec_pos(),
                0 <= self.spec_pos() <= s.len(),
                spec_guess_all(s, p0) == (match spec_guess_all(s, self.spec_pos()).0 {
                    Ok(vs) => (
                        Ok::<Seq<CompositeView>, ParseErrorView>(out@.map_values(|e: DataElementComposite| e@) + vs),
                        spec_guess_all(s, self.spec_pos()).1,
                    ),
                    Err(x) => (Err::<Seq<CompositeView>, ParseErrorView>(x), spec_guess_all(s, self.spec_pos()).1),
                }),
            decreases s.len() - self.spec_pos(),
        {
            proof {
                use_type_invariant(&*self);
                lemma_guess_progress(s, self.spec_pos());
            }
            let ghost before = out@.map_values(|e: DataElementComposite| e@);
            let next = self.read_guess()?;
            out.push(next);
            proof {
                use_type_invariant(&*self);
                assert(out@.map_values(|e: DataElementComposite| e@) =~= before.push(next@));
                let p = self.spec_pos();
                match spec_guess_all(s, p).0 {
                    Ok(vs) => {
                        assert(before + (seq![next@] + vs) =~= before.push(next@) + vs);
                    },
                    Err(_) => {},
                }
            }
        }
        proof {
            use_type_invariant(&*self);
            assert(out@.map_values(|e: DataElementComposite| e@) + Seq::<CompositeView>::empty()
                =~= out@.map_values(|e: DataElementComposite| e@));
        }
        Ok(out)
    }
}

} // verus!
