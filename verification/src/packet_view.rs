//! Dissection of captured packets into text for the packet tracer.
use vstd::prelude::*;
use crate::mitm::PacketSource;
use crate::protocol::PacketType;
use vstd::slice::slice_subrange;
use crate::fmt_num::{dec_text, hex_text, push_dec, push_hex};
use crate::protocol::{Packet, PacketModel};
use crate::rqode_binrw::{
    BinError, DataElement, DataElementView, Wire, read_partial, read_guess_all,
    spec_read_guess_all,
};
use crate::le::{le16, read_le16};
use crate::dump::{Dump, bin_error_text, dump_text, list_string, push_bin_error, views_list};

verus! {

/// How a packet body was turned into text.
#[derive(Clone, Copy, Debug, PartialEq, Eq, Structural)]
pub enum DissectionKind {
    /// Read as a known packet structure.
    Structured,
    /// Read as a guessed element stream.
    Guessed,
    /// Shown as a hex dump only.
    Binary,
    /// A known packet that failed to read: hex dump and guessed elements.
    Combined,
}

/// A captured packet with its dissection.
#[derive(Clone, Debug)]
pub struct PacketView {
    pub id: u16,
    pub name: Option<String>,
    pub source: PacketSource,
    pub length: usize,
    pub kind: DissectionKind,
    pub text: String,
    pub pretty: bool,
    pub data: Vec<u8>,
    pub compressed: bool,
}

/// Mathematical form of [`PacketView`].
pub struct PacketViewModel {
    pub id: u16,
    pub name: Option<Seq<char>>,
    pub source: PacketSource,
    pub length: nat,
    pub kind: DissectionKind,
    pub text: Seq<char>,
    pub pretty: bool,
    pub data: Seq<u8>,
    pub compressed: bool,
}

impl View for PacketView {
    type V = PacketViewModel;

    open spec fn view(&self) -> PacketViewModel {
        PacketViewModel {
            id: self.id,
            name: match self.name {
                Some(n) => Some(n@),
                None => None,
            },
            source: self.source,
            length: self.length as nat,
            kind: self.kind,
            text: self.text@,
            pretty: self.pretty,
            data: self.data@,
            compressed: self.compressed,
        }
    }
}

/// The name of a known packet type.
pub fn packet_name(id: u16) -> (r: Option<String>)
    ensures
        match PacketType::spec_from_u16(id) {
            Some(t) => r matches Some(n) && n@ == t.spec_name()@,
            None => r is None,
        },
{
    match PacketType::from_u16(id) {
        Some(t) => Some(String::from_str(t.name())),
        None => None,
    }
}

/// The multi-line hex dump (offsets, hex bytes and ASCII) that
/// `pretty_hex::pretty_hex` gives for `data`.
pub uninterp spec fn pretty_hex_text(data: Seq<u8>) -> Seq<char>;

/// Hex dump of bytes in the default multi-line layout.
///
/// Trusted: `pretty_hex::pretty_hex` is a function of the bytes alone,
/// named `pretty_hex_text`.
#[verifier::external_body]
pub(crate) fn binary(data: &[u8]) -> (r: String)
    ensures
        r@ == pretty_hex_text(data@),
{
    pretty_hex::pretty_hex(&data)
}

/// The word for the side that sent a packet.
pub open spec fn source_word(source: PacketSource) -> Seq<char> {
    match source {
        PacketSource::Client => "Client"@,
        PacketSource::Server => "Server"@,
    }
}

/// The packet body: the data after the two-byte type, or nothing when the
/// data is shorter than that.
pub open spec fn body_of(data: Seq<u8>) -> Seq<u8> {
    if data.len() >= 2 {
        data.subrange(2, data.len() as int)
    } else {
        Seq::empty()
    }
}

/// The first line of a logged packet: `"<side>: packet <0xHEX> (<dec>) <name>;"`.
pub open spec fn log_header(source: PacketSource, id: u16, name: Seq<char>) -> Seq<char> {
    source_word(source) + ": packet "@ + hex_text(id as nat) + " ("@ + dec_text(id as nat) + ") "@
        + name + ";\n"@
}

/// The log text of a packet view.
pub open spec fn spec_format_log(v: PacketView) -> Seq<char> {
    let name = match v.name {
        Some(n) => n@,
        None => ""@,
    };
    let head = log_header(v.source, v.id, name);
    if v.length > 0 {
        match v.kind {
            DissectionKind::Structured | DissectionKind::Guessed => head + pretty_hex_text(
                body_of(v.data@),
            ) + "\n"@ + v.text@,
            DissectionKind::Combined | DissectionKind::Binary => head + v.text@,
        }
    } else {
        head
    }
}

pub(crate) fn source_str(source: PacketSource) -> (r: &'static str)
    ensures
        r@ == source_word(source),
{
    match source {
        PacketSource::Client => "Client",
        PacketSource::Server => "Server",
    }
}

fn body_slice(data: &Vec<u8>) -> (r: &[u8])
    ensures
        r@ == body_of(data@),
{
    if data.len() >= 2 {
        slice_subrange(data.as_slice(), 2, data.len())
    } else {
        &[]
    }
}

impl PacketView {
    /// The packet as text for copying out of the tracer: a header line,
    /// then, for a nonempty body, the hex dump (for structured and guessed
    /// dissections) and the dissection text.
    pub fn format_log(&self) -> (r: String)
        ensures
            r@ == spec_format_log(*self),
    {
        let mut text = String::from_str(source_str(self.source));
        text.append(": packet ");
        push_hex(&mut text, self.id as u64);
        text.append(" (");
        push_dec(&mut text, self.id as u64);
        text.append(") ");
        match &self.name {
            Some(n) => text.append(n.as_str()),
            None => text.append(""),
        }
        text.append(";\n");
        if self.length > 0 {
            match self.kind {
                DissectionKind::Structured | DissectionKind::Guessed => {
                    let dump = binary(body_slice(&self.data));
                    text.append(dump.as_str());
                    text.append("\n");
                    text.append(self.text.as_str());
                },
                DissectionKind::Combined | DissectionKind::Binary => {
                    text.append(self.text.as_str());
                },
            }
        }
        text
    }
}


/// The multi-line text of a packet.
pub open spec fn packet_dump_pretty(p: PacketModel) -> Seq<char> {
    Packet::spec_dump(p, true, 0)
}

/// The one-line text of a packet.
pub open spec fn packet_dump_plain(p: PacketModel) -> Seq<char> {
    Packet::spec_dump(p, false, 0)
}

/// The multi-line text of a list of elements.
pub open spec fn elements_dump_pretty(v: Seq<DataElementView>) -> Seq<char> {
    views_list::<DataElement>(v, true, 0)
}

/// The one-line text of a list of elements.
pub open spec fn elements_dump_plain(v: Seq<DataElementView>) -> Seq<char> {
    views_list::<DataElement>(v, false, 0)
}

/// The multi-line text of a reading error.
pub open spec fn bin_error_dump(e: BinError) -> Seq<char> {
    bin_error_text(e, true)
}

fn dump_packet_pretty(p: &Packet) -> (r: String)
    ensures
        r@ == packet_dump_pretty(p@),
{
    dump_text(p, true, 0)
}

pub(crate) fn dump_packet_plain(p: &Packet) -> (r: String)
    ensures
        r@ == packet_dump_plain(p@),
{
    dump_text(p, false, 0)
}

fn dump_elements_pretty(v: &Vec<DataElement>) -> (r: String)
    ensures
        r@ == elements_dump_pretty(v@.map_values(|e: DataElement| e@)),
{
    list_string(v.as_slice(), true, 0)
}

pub(crate) fn dump_elements_plain(v: &Vec<DataElement>) -> (r: String)
    ensures
        r@ == elements_dump_plain(v@.map_values(|e: DataElement| e@)),
{
    list_string(v.as_slice(), false, 0)
}

pub(crate) fn dump_bin_error(e: BinError) -> (r: String)
    ensures
        r@ == bin_error_dump(e),
{
    let mut s = String::new();
    push_bin_error(&mut s, e, true);
    assert(s@ =~= bin_error_dump(e));
    s
}

/// The text of a packet: multi-line when pretty.
pub open spec fn packet_text(p: PacketModel, pretty: bool) -> Seq<char> {
    if pretty {
        packet_dump_pretty(p)
    } else {
        packet_dump_plain(p)
    }
}

/// The text of a list of elements: multi-line when pretty.
pub open spec fn elements_text(v: Seq<DataElementView>, pretty: bool) -> Seq<char> {
    if pretty {
        elements_dump_pretty(v)
    } else {
        elements_dump_plain(v)
    }
}

/// A stub word, followed by the error's text when pretty.
pub open spec fn error_or_stub_text(e: BinError, stub: Seq<char>, pretty: bool) -> Seq<char> {
    if pretty {
        stub + "\n"@ + bin_error_dump(e)
    } else {
        stub
    }
}

fn pretty_packet(p: &Packet, pretty: bool) -> (r: String)
    ensures
        r@ == packet_text(p@, pretty),
{
    if pretty {
        dump_packet_pretty(p)
    } else {
        dump_packet_plain(p)
    }
}

pub(crate) fn pretty_elements(v: &Vec<DataElement>, pretty: bool) -> (r: String)
    ensures
        r@ == elements_text(v@.map_values(|e: DataElement| e@), pretty),
{
    if pretty {
        dump_elements_pretty(v)
    } else {
        dump_elements_plain(v)
    }
}

fn error_or_stub(e: BinError, stub: &str, pretty: bool) -> (r: String)
    ensures
        r@ == error_or_stub_text(e, stub@, pretty),
{
    let mut t = String::from_str(stub);
    if pretty {
        t.append("\n");
        let d = dump_bin_error(e);
        t.append(d.as_str());
    }
    t
}

/// How many compressed packets inside compressed packets are unpacked.
pub const DISSECT_DEPTH: u32 = 8;

/// The dissection of a packet read as a known structure ending at `off`:
/// its text, then, if bytes are left, their hex dump and, where they can be
/// guessed, their elements.
pub open spec fn structured_text(pk: PacketModel, off: int, data: Seq<u8>, pretty: bool) -> Seq<char> {
    let base = packet_text(pk, pretty);
    if off < data.len() {
        let rest = data.subrange(off, data.len() as int);
        let left = base + "\nleft: "@ + pretty_hex_text(rest);
        match spec_read_guess_all(rest, 0) {
            Ok(vs) => left + "\ntail: "@ + elements_text(vs, pretty),
            Err(_) => left,
        }
    } else {
        base
    }
}

/// What a packet's bytes read as when read as a whole known packet.
#[verifier::opaque]
pub open spec fn packet_reading(data: Seq<u8>) -> Result<(PacketModel, int), BinError> {
    Packet::spec_parse(data, 0)
}

/// The name of a known packet type code.
pub open spec fn known_name(id: u16) -> Option<Seq<char>> {
    match PacketType::spec_from_u16(id) {
        Some(t) => Some(t.spec_name()@),
        None => None,
    }
}

/// A view of the packet `data` with the given dissection.
pub open spec fn view_of(
    source: PacketSource,
    id: u16,
    data: Seq<u8>,
    pretty: bool,
    kind: DissectionKind,
    text: Seq<char>,
) -> PacketViewModel {
    PacketViewModel {
        id,
        name: known_name(id),
        source,
        length: body_of(data).len(),
        kind,
        text,
        pretty,
        data,
        compressed: false,
    }
}

/// The compressed payload that a packet carries, if it is a compressed one.
pub open spec fn compressed_blob(pk: PacketModel) -> Option<Seq<u8>> {
    match pk {
        PacketModel::CompressedData(b) => Some(b),
        PacketModel::CompressedData2(b) => Some(b),
        _ => None,
    }
}

/// The text for a known packet type that failed to read: the error, a hex
/// dump of the body, and the guessed elements (or the guessing error).
pub open spec fn failed_text(e: BinError, body: Seq<u8>, pretty: bool) -> Seq<char> {
    let parsed = match spec_read_guess_all(body, 0) {
        Ok(vs) => elements_text(vs, pretty),
        Err(e2) => error_or_stub_text(e2, "[GUESS ERR]"@, pretty),
    };
    error_or_stub_text(e, "[BINRW ERR]"@, pretty) + " "@ + pretty_hex_text(body) + "\n"@ + parsed
}

/// The view of a packet of unknown type: its guessed elements, or the
/// guessing error and a hex dump.
pub open spec fn unknown_view(source: PacketSource, id: u16, data: Seq<u8>, pretty: bool) -> PacketViewModel {
    let body = body_of(data);
    match spec_read_guess_all(body, 0) {
        Ok(vs) => view_of(source, id, data, pretty, DissectionKind::Guessed, elements_text(vs, pretty)),
        Err(e) => view_of(
            source,
            id,
            data,
            pretty,
            DissectionKind::Binary,
            error_or_stub_text(e, "[GUESS ERR]"@, pretty) + " "@ + pretty_hex_text(body),
        ),
    }
}

/// The dissection of a packet: a known type is read as its structure
/// (a compressed packet is unpacked and dissected in turn, up to `depth`
/// levels, and marked as having come compressed); a known type that fails
/// to read gets the error, a hex dump and the guessed elements; an unknown
/// type gets the guessed elements, or the error and a hex dump.
pub open spec fn spec_dissect(source: PacketSource, id: u16, data: Seq<u8>, pretty: bool, depth: nat) -> PacketViewModel
    decreases depth,
{
    if known_name(id) is Some {
        match packet_reading(data) {
            Ok((pk, off)) => match compressed_blob(pk) {
                Some(b) => if depth > 0 && b.len() >= 4 {
                    PacketViewModel {
                        compressed: true,
                        ..spec_dissect(source, le16(b, 2), b.subrange(2, b.len() as int), pretty, (depth - 1) as nat)
                    }
                } else {
                    view_of(source, id, data, pretty, DissectionKind::Structured, structured_text(pk, off, data, pretty))
                },
                None => view_of(source, id, data, pretty, DissectionKind::Structured, structured_text(pk, off, data, pretty)),
            },
            Err(e) => view_of(source, id, data, pretty, DissectionKind::Combined, failed_text(e, body_of(data), pretty)),
        }
    } else {
        unknown_view(source, id, data, pretty)
    }
}

/// The compressed packets inside the packet `data` of type `id` unpack to
/// a packet that is not compressed within `depth` levels.
pub open spec fn unpacks_within(id: u16, data: Seq<u8>, depth: nat) -> bool
    decreases depth,
{
    if known_name(id) is Some {
        match packet_reading(data) {
            Ok((pk, off)) => match compressed_blob(pk) {
                Some(b) => b.len() >= 4 ==> depth > 0 && unpacks_within(
                    le16(b, 2),
                    b.subrange(2, b.len() as int),
                    (depth - 1) as nat,
                ),
                None => true,
            },
            Err(_) => true,
        }
    } else {
        true
    }
}

/// A packet that unpacks within `depth` levels is dissected the same under
/// any larger bound on unpacking: the bound only matters for packets
/// nested deeper than it.
pub proof fn lemma_dissect_bound_unused(source: PacketSource, id: u16, data: Seq<u8>, pretty: bool, depth: nat, more: nat)
    requires
        unpacks_within(id, data, depth),
        depth <= more,
    ensures
        spec_dissect(source, id, data, pretty, depth) == spec_dissect(source, id, data, pretty, more),
    decreases depth,
{
    if known_name(id) is Some {
        match packet_reading(data) {
            Ok((pk, off)) => match compressed_blob(pk) {
                Some(b) => if b.len() >= 4 {
                    lemma_dissect_bound_unused(
                        source,
                        le16(b, 2),
                        b.subrange(2, b.len() as int),
                        pretty,
                        (depth - 1) as nat,
                        (more - 1) as nat,
                    );
                },
                None => {},
            },
            Err(_) => {},
        }
    }
}

pub(crate) fn read_packet(data: &[u8]) -> (r: Result<(Packet, usize), BinError>)
    ensures
        r matches Ok((_, q)) ==> q <= data@.len(),
        match r {
            Ok((p, q)) => packet_reading(data@) == Ok::<(PacketModel, int), BinError>((p@, q as int)),
            Err(e) => packet_reading(data@) == Err::<(PacketModel, int), BinError>(e),
        },
{
    proof {
        reveal(packet_reading);
    }
    Packet::parse(data, 0)
}

fn blob_of(pk: &Packet) -> (r: Option<&Vec<u8>>)
    ensures
        match compressed_blob(pk@) {
            Some(b) => r matches Some(v) && v@ == b,
            None => r is None,
        },
{
    match pk {
        Packet::CompressedData(c) => Some(&c.blob),
        Packet::CompressedData2(c) => Some(&c.blob),
        _ => None,
    }
}

fn failed(source: PacketSource, id: u16, data: &[u8], pretty: bool, e: BinError) -> (r: PacketView)
    ensures
        r@ == view_of(source, id, data@, pretty, DissectionKind::Combined, failed_text(e, body_of(data@), pretty)),
{
    let body = body_slice_of(data);
    let parsed = match read_guess_all(body) {
        Ok(p) => pretty_elements(&p, pretty),
        Err(e2) => error_or_stub(e2, "[GUESS ERR]", pretty),
    };
    let mut text = error_or_stub(e, "[BINRW ERR]", pretty);
    text.append(" ");
    let dump = binary(body);
    text.append(dump.as_str());
    text.append("\n");
    text.append(parsed.as_str());
    PacketView {
        id,
        name: packet_name(id),
        source,
        length: body.len(),
        kind: DissectionKind::Combined,
        text,
        pretty,
        data: copy_bytes(data),
        compressed: false,
    }
}

fn unknown(source: PacketSource, id: u16, data: &[u8], pretty: bool) -> (r: PacketView)
    ensures
        r@ == unknown_view(source, id, data@, pretty),
{
    let body = body_slice_of(data);
    let (kind, text) = match read_guess_all(body) {
        Ok(values) => (DissectionKind::Guessed, pretty_elements(&values, pretty)),
        Err(e) => {
            let mut text = error_or_stub(e, "[GUESS ERR]", pretty);
            text.append(" ");
            let dump = binary(body);
            text.append(dump.as_str());
            (DissectionKind::Binary, text)
        },
    };
    PacketView {
        id,
        name: packet_name(id),
        source,
        length: body.len(),
        kind,
        text,
        pretty,
        data: copy_bytes(data),
        compressed: false,
    }
}

fn structured(source: PacketSource, id: u16, data: &[u8], pretty: bool, pk: &Packet, off: usize) -> (r: PacketView)
    requires
        off <= data@.len(),
    ensures
        r@ == view_of(source, id, data@, pretty, DissectionKind::Structured, structured_text(pk@, off as int, data@, pretty)),
{
    let mut text = pretty_packet(pk, pretty);
    if off < data.len() {
        let rest = slice_subrange(data, off, data.len());
        text.append("\nleft: ");
        let dump = binary(rest);
        text.append(dump.as_str());
        match read_guess_all(rest) {
            Ok(values) => {
                text.append("\ntail: ");
                let t = pretty_elements(&values, pretty);
                text.append(t.as_str());
            },
            Err(_) => {},
        }
    }
    let body = body_slice_of(data);
    PacketView {
        id,
        name: packet_name(id),
        source,
        length: body.len(),
        kind: DissectionKind::Structured,
        text,
        pretty,
        data: copy_bytes(data),
        compressed: false,
    }
}

fn body_slice_of(data: &[u8]) -> (r: &[u8])
    ensures
        r@ == body_of(data@),
{
    if data.len() >= 2 {
        slice_subrange(data, 2, data.len())
    } else {
        &[]
    }
}

fn copy_bytes(data: &[u8]) -> (r: Vec<u8>)
    ensures
        r@ == data@,
{
    crate::text::copy_range(data, 0, data.len())
}

fn dissect_depth(source: PacketSource, id: u16, data: &[u8], pretty: bool, depth: u32) -> (r: PacketView)
    ensures
        r@ == spec_dissect(source, id, data@, pretty, depth as nat),
    decreases depth,
{
    let name = packet_name(id);
    if name.is_none() {
        return unknown(source, id, data, pretty);
    }
    match read_packet(data) {
        Ok((packet, offset)) => {
            match blob_of(&packet) {
                Some(b) => {
                    if depth > 0 && b.len() >= 4 {
                        let ptype = read_le16(b.as_slice(), 2);
                        let inner_data = slice_subrange(b.as_slice(), 2, b.len());
                        let mut inner = dissect_depth(source, ptype, inner_data, pretty, depth - 1);
                        inner.compressed = true;
                        return inner;
                    }
                },
                None => {},
            }
            structured(source, id, data, pretty, &packet, offset)
        },
        Err(e) => failed(source, id, data, pretty, e),
    }
}

/// Dissects a packet (its type code and body) into a view for the tracer.
pub fn dissect(source: PacketSource, id: u16, data: &[u8], pretty: bool) -> (r: PacketView)
    ensures
        r@ == spec_dissect(source, id, data@, pretty, DISSECT_DEPTH as nat),
{
    dissect_depth(source, id, data, pretty, DISSECT_DEPTH)
}

impl PacketView {
    /// Dissects the packet again, in the other text layout, keeping whether
    /// it came compressed.
    pub fn redissect(&mut self, pretty: bool)
        ensures
            final(self)@ == (PacketViewModel {
                compressed: old(self).compressed,
                ..spec_dissect(old(self).source, old(self).id, old(self).data@, pretty, DISSECT_DEPTH as nat)
            }),
    {
        let compressed = self.compressed;
        *self = dissect(self.source, self.id, self.data.as_slice(), pretty);
        self.compressed = compressed;
    }
}

} // verus!
