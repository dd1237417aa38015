//! The console packet trace: which packets are shown, and the text shown
//! for each.
use vstd::prelude::*;
use crate::mitm::PacketSource;
use crate::protocol::PacketType;
use crate::packet_view::{
    source_word, source_str, packet_reading, read_packet, pretty_hex_text, binary,
    packet_dump_plain, elements_dump_plain, bin_error_dump, dump_packet_plain,
    dump_elements_plain, dump_bin_error,
};
use crate::fmt_num::{dec_text, dec_text2, lower_hex_text, push_dec, push_dec2, push_hex_lower};
use crate::rqode_binrw::{BinError, DataElement, spec_read_guess_all, read_guess_all};
use crate::protocol::PacketModel;

verus! {

/// Packet types that are not traced.
pub const IGNORE: [PacketType; 5] = [
    PacketType::HeartbeatClient,
    PacketType::HeartbeatServer,
    PacketType::Heartbeat2,
    PacketType::CharacterMove,
    PacketType::EntityMove,
];

/// Packet types traced with their header line only.
pub const COLLAPSE: [PacketType; 1] = [PacketType::GuildAvatar];

/// When not empty, only these packet types are traced.
pub const ONLY: [PacketType; 0] = [];

fn type_listed(list: &[PacketType], t: PacketType) -> (r: bool)
    ensures
        r == list@.contains(t),
{
    let mut k: usize = 0;
    while k < list.len()
        invariant
            k <= list@.len(),
            forall|m: int| 0 <= m < k ==> list@[m] != t,
        decreases list@.len() - k,
    {
        if list[k] == t {
            return true;
        }
        k = k + 1;
    }
    false
}

/// The line that separates traced packets.
pub open spec fn separator() -> Seq<char> {
    "--- --- --- --- --- --- --- --- --- --- --- --- --- ---\n"@
}

/// The start of a packet's trace line: side, decimal type (two digits at
/// least), hexadecimal type and type name.
pub open spec fn trace_header(source: PacketSource, ptype: u16, name: Seq<char>) -> Seq<char> {
    source_word(source) + ": packet "@ + dec_text2(ptype as nat) + " ("@ + lower_hex_text(ptype as nat)
        + ") "@ + name
}

/// The line for a guessed element stream: the elements, or the error.
pub open spec fn guess_line(data: Seq<u8>) -> Seq<char> {
    match spec_read_guess_all(data, 0) {
        Ok(vs) => "parsed: "@ + elements_dump_plain(vs) + "\n"@,
        Err(e) => "parse error: "@ + bin_error_dump(e) + "\n"@,
    }
}

/// Whether a packet type is left out of the trace.
pub open spec fn trace_skipped(t: Option<PacketType>) -> bool {
    match t {
        Some(t) => IGNORE@.contains(t) || (ONLY@.len() > 0 && !ONLY@.contains(t)),
        None => ONLY@.len() > 0,
    }
}

/// The trace of a packet (`data` is its type and body): nothing for an
/// ignored type; a header line with the body length for a collapsed type
/// or an empty body; the read structure and what is left after it for a
/// packet that reads as a known structure; otherwise the reading error (for
/// a known type), a hex dump of the body and its guessed elements.
pub open spec fn spec_ptrace(source: PacketSource, ptype: u16, data: Seq<u8>) -> Option<Seq<char>> {
    let t = PacketType::spec_from_u16(ptype);
    if trace_skipped(t) {
        None
    } else {
        let name = match t {
            Some(t) => t.spec_name()@,
            None => Seq::empty(),
        };
        let collapse = match t {
            Some(t) => COLLAPSE@.contains(t),
            None => false,
        };
        let head = trace_header(source, ptype, name);
        if collapse || data.len() == 2 {
            Some(separator() + head + "; Length "@ + dec_text((data.len() - 2) as nat) + "\n"@)
        } else {
            match packet_reading(data) {
                Ok((pk, off)) => {
                    let first = separator() + head + "\nparsed: "@ + packet_dump_plain(pk) + "\n"@;
                    let left = data.subrange(off, data.len() as int);
                    if left.len() > 0 {
                        Some(first + "left: "@ + pretty_hex_text(left) + "\n"@ + guess_line(left))
                    } else {
                        Some(first)
                    }
                },
                Err(e) => {
                    let err = if t is Some {
                        "parse error: "@ + bin_error_dump(e) + "\n"@
                    } else {
                        Seq::empty()
                    };
                    let body = data.subrange(2, data.len() as int);
                    Some(separator() + err + head + "; "@ + pretty_hex_text(body) + "\n"@ + guess_line(body))
                },
            }
        }
    }
}

fn push_guess_line(text: &mut String, data: &[u8])
    ensures
        final(text)@ == old(text)@ + guess_line(data@),
{
    match read_guess_all(data) {
        Ok(values) => {
            text.append("parsed: ");
            let d = dump_elements_plain(&values);
            text.append(d.as_str());
        },
        Err(e) => {
            text.append("parse error: ");
            let d = dump_bin_error(e);
            text.append(d.as_str());
        },
    }
    text.append("\n");
    proof {
        reveal_strlit("parsed: ");
        reveal_strlit("parse error: ");
        reveal_strlit("\n");
    }
}

fn push_header(text: &mut String, source: PacketSource, ptype: u16, name: &str)
    ensures
        final(text)@ == old(text)@ + trace_header(source, ptype, name@),
{
    text.append(source_str(source));
    text.append(": packet ");
    push_dec2(text, ptype as u64);
    text.append(" (");
    push_hex_lower(text, ptype as u64);
    text.append(") ");
    text.append(name);
    proof {
        reveal_strlit(": packet ");
        reveal_strlit(" (");
        reveal_strlit(") ");
    }
}

/// Whether packets of type `ptype` are traced.
pub fn is_traced(ptype: u16) -> (r: bool)
    ensures
        r == !trace_skipped(PacketType::spec_from_u16(ptype)),
{
    match PacketType::from_u16(ptype) {
        Some(t) => !(type_listed(&IGNORE, t) || (ONLY.len() > 0 && !type_listed(&ONLY, t))),
        None => ONLY.len() == 0,
    }
}

/// The trace text of a packet taken from the stream (`data` is its type
/// and body), or `None` where the type is not traced. A traced packet
/// holds at least its two type bytes.
pub fn ptrace(source: PacketSource, ptype: u16, data: &[u8]) -> (r: Option<String>)
    requires
        data@.len() >= 2 || trace_skipped(PacketType::spec_from_u16(ptype)),
    ensures
        match spec_ptrace(source, ptype, data@) {
            Some(t) => r matches Some(s) && s@ == t,
            None => r is None,
        },
{
    let t = PacketType::from_u16(ptype);
    let (name, collapse): (&str, bool) = match t {
        Some(t) => {
            if type_listed(&IGNORE, t) {
                return None;
            }
            if ONLY.len() > 0 && !type_listed(&ONLY, t) {
                return None;
            }
            (t.name(), type_listed(&COLLAPSE, t))
        },
        None => {
            if ONLY.len() > 0 {
                return None;
            }
            ("", false)
        },
    };
    proof {
        reveal_strlit("");
        reveal_strlit("--- --- --- --- --- --- --- --- --- --- --- --- --- ---\n");
    }
    let mut text = String::from_str("--- --- --- --- --- --- --- --- --- --- --- --- --- ---\n");
    if collapse || data.len() == 2 {
        push_header(&mut text, source, ptype, name);
        text.append("; Length ");
        push_dec(&mut text, (data.len() - 2) as u64);
        text.append("\n");
        proof {
            reveal_strlit("; Length ");
            reveal_strlit("\n");
        }
        return Some(text);
    }
    match read_packet(data) {
        Ok((packet, offset)) => {
            push_header(&mut text, source, ptype, name);
            text.append("\nparsed: ");
            let d = dump_packet_plain(&packet);
            text.append(d.as_str());
            text.append("\n");
            proof {
                reveal_strlit("\nparsed: ");
                reveal_strlit("\n");
            }
            if offset < data.len() {
                let left = vstd::slice::slice_subrange(data, offset, data.len());
                text.append("left: ");
                let dump = binary(left);
                text.append(dump.as_str());
                text.append("\n");
                proof {
                    reveal_strlit("left: ");
                }
                push_guess_line(&mut text, left);
            }
            Some(text)
        },
        Err(e) => {
            if t.is_some() {
                text.append("parse error: ");
                let d = dump_bin_error(e);
                text.append(d.as_str());
                text.append("\n");
                proof {
                    reveal_strlit("parse error: ");
                    reveal_strlit("\n");
                }
            }
            push_header(&mut text, source, ptype, name);
            text.append("; ");
            let body = vstd::slice::slice_subrange(data, 2, data.len());
            let dump = binary(body);
            text.append(dump.as_str());
            text.append("\n");
            proof {
                reveal_strlit("; ");
                reveal_strlit("\n");
            }
            push_guess_line(&mut text, body);
            Some(text)
        },
    }
}

} // verus!
