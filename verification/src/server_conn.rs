//! A game client's connection to the server: framing the client's byte
//! stream into packets, answering them, and the connection's key
//! exchange.
use vstd::prelude::*;
use crate::cipher::{read_game_pubkey, prepare_rc4_boxes, prepared_rx, zero_state, boxes_message};
use crate::le::{le16, ser16, read_le16};
use crate::mitm::{Frame, FrameModel, PacketSource, frames_view, pushed_stream};
use crate::protocol::{Packet, PacketModel, PacketType};
use crate::rc4::{CustomRc4, apply, advance};
use crate::ring::{ByteRing, ring_contents, ring_capacity};
use crate::rqode_binrw::{Wire, read_checked};
use crate::server_handler::{PacketOrBlob, PacketOrBlobModel, packets_view, process_packet, packet_outcome};
use crate::server_state::{ConnectionInfo, State, StateError};
use crate::text::{copy_range, vec_of_zeros};

verus! {

/// The bytes of an outgoing item: a packet's type and body, or the raw
/// bytes.
pub open spec fn item_bytes(m: PacketOrBlobModel) -> Seq<u8> {
    match m {
        PacketOrBlobModel::Packet(p) => <Packet as Wire>::spec_ser(p),
        PacketOrBlobModel::Blob(b) => b,
    }
}

/// An outgoing item with its size field in front (the size counts itself,
/// modulo 2^16).
pub open spec fn framed(m: PacketOrBlobModel) -> Seq<u8> {
    let b = item_bytes(m);
    ser16(((b.len() + 2) % 0x1_0000) as u16) + b
}

/// Outgoing items, each framed, one after the other.
pub open spec fn framed_all(v: Seq<PacketOrBlobModel>) -> Seq<u8>
    decreases v.len(),
{
    if v.len() == 0 {
        Seq::empty()
    } else {
        framed_all(v.drop_last()) + framed(v.last())
    }
}

/// Whether an item has room for a type (raw bytes of fewer than two bytes
/// have none).
pub open spec fn item_typed(m: PacketOrBlobModel) -> bool {
    item_bytes(m).len() >= 2
}

/// Appends an item with its size field; returns its type and its bytes.
pub fn write_packet(out: &mut Vec<u8>, p: &PacketOrBlob) -> (r: (u16, Vec<u8>))
    requires
        item_typed(p@),
    ensures
        final(out)@ == old(out)@ + framed(p@),
        r.0 == le16(item_bytes(p@), 0),
        r.1@ == item_bytes(p@),
{
    let mut bytes: Vec<u8> = Vec::new();
    match p {
        PacketOrBlob::Packet(pk) => {
            pk.write(&mut bytes);
        },
        PacketOrBlob::Blob(b) => {
            bytes = copy_range(b, 0, b.len());
        },
    }
    assert(bytes@ =~= item_bytes(p@));
    let low: u16 = (bytes.len() % 0x1_0000) as u16;
    let size: u16 = if low >= 0xFFFE {
        low - 0xFFFE
    } else {
        low + 2
    };
    assert(size == ((bytes@.len() + 2) % 0x1_0000) as u16);
    crate::le::write_le16(out, size);
    let mut k: usize = 0;
    let ghost mid = out@;
    while k < bytes.len()
        invariant
            k <= bytes@.len(),
            out@ == mid + bytes@.subrange(0, k as int),
        decreases bytes@.len() - k,
    {
        out.push(bytes[k]);
        k = k + 1;
        assert(out@ =~= mid + bytes@.subrange(0, k as int));
    }
    assert(bytes@.subrange(0, bytes@.len() as int) =~= bytes@);
    let ptype = read_le16(bytes.as_slice(), 0);
    (ptype, bytes)
}

/// A packet taken from a client stream: its type, and its bytes after the
/// size field (type first).
pub struct ClientFrame {
    pub ptype: u16,
    pub packet: Seq<u8>,
}

/// The packets of a client stream: each is a little-endian u16 size
/// (counting itself), a u16 type and a body; whole packets are taken from
/// the front. Framing stops at an incomplete packet, and at one whose size
/// does not cover its size field. Returns the packets and the bytes left.
pub open spec fn client_frames(s: Seq<u8>) -> (Seq<ClientFrame>, Seq<u8>)
    decreases s.len(),
{
    if s.len() < 4 || le16(s, 0) < 2 || s.len() < le16(s, 0) {
        (Seq::empty(), s)
    } else {
        let n = le16(s, 0) as int;
        let r = client_frames(s.subrange(n, s.len() as int));
        (seq![ClientFrame { ptype: le16(s, 2), packet: s.subrange(2, n) }] + r.0, r.1)
    }
}

/// Streaming law: framing a stream that arrives in two parts gives the
/// packets of the first part, then those of what was left of it with the
/// second part appended, and ends as framing the whole stream ends.
pub proof fn lemma_client_frames_stream(s: Seq<u8>, t: Seq<u8>)
    ensures
        ({
            let a = client_frames(s);
            let b = client_frames(a.1 + t);
            client_frames(s + t) == (a.0 + b.0, b.1)
        }),
    decreases s.len(),
{
    let a = client_frames(s);
    let st = s + t;
    if s.len() < 4 || le16(s, 0) < 2 || s.len() < le16(s, 0) {
        assert(a.0 + client_frames(st).0 =~= client_frames(st).0);
    } else {
        let n = le16(s, 0) as int;
        assert(st[0] == s[0] && st[1] == s[1] && st[2] == s[2] && st[3] == s[3]);
        assert(le16(st, 0) == le16(s, 0));
        assert(le16(st, 2) == le16(s, 2));
        assert(st.subrange(2, n) =~= s.subrange(2, n));
        let rest = s.subrange(n, s.len() as int);
        assert(st.subrange(n, st.len() as int) =~= rest + t);
        lemma_client_frames_stream(rest, t);
        let r = client_frames(rest);
        let b = client_frames(r.1 + t);
        let f = ClientFrame { ptype: le16(s, 2), packet: s.subrange(2, n) };
        assert(client_frames(st).0 =~= seq![f] + (r.0 + b.0));
        assert(a.0 + b.0 =~= seq![f] + (r.0 + b.0));
    }
}

/// The frame that an outgoing item reads back as.
pub open spec fn frame_of(m: PacketOrBlobModel) -> ClientFrame {
    ClientFrame { ptype: le16(item_bytes(m), 0), packet: item_bytes(m) }
}

/// An item with a type whose framed size fits the 16-bit size field.
pub open spec fn fits_frame(m: PacketOrBlobModel) -> bool {
    item_typed(m) && item_bytes(m).len() + 2 < 0x1_0000
}

proof fn lemma_framed_reads_back_one(m: PacketOrBlobModel)
    requires
        fits_frame(m),
    ensures
        client_frames(framed(m)) == (seq![frame_of(m)], Seq::<u8>::empty()),
{
    let b = item_bytes(m);
    let f = framed(m);
    let n = b.len() + 2;
    assert((n % 0x1_0000) == n);
    assert(f.subrange(0, 2) =~= ser16(n as u16));
    crate::le::lemma_le16_roundtrip(f, 0, n as u16);
    assert(f[2] == b[0] && f[3] == b[1]);
    assert(le16(f, 2) == le16(b, 0));
    assert(f.subrange(2, n as int) =~= b);
    assert(f.subrange(n as int, f.len() as int) =~= Seq::<u8>::empty());
    assert(client_frames(Seq::<u8>::empty()).0 =~= Seq::<ClientFrame>::empty());
    assert(client_frames(f).0 =~= seq![frame_of(m)]);
}

/// Read-back law: a client stream made of framed items (each with a type
/// and a size that fits the size field) frames into exactly those items,
/// in order, with nothing left over.
pub proof fn lemma_framed_reads_back(v: Seq<PacketOrBlobModel>)
    requires
        forall|k: int| 0 <= k < v.len() ==> fits_frame(#[trigger] v[k]),
    ensures
        client_frames(framed_all(v)) == (v.map_values(|m: PacketOrBlobModel| frame_of(m)), Seq::<u8>::empty()),
    decreases v.len(),
{
    if v.len() == 0 {
        assert(v.map_values(|m: PacketOrBlobModel| frame_of(m)) =~= Seq::<ClientFrame>::empty());
    } else {
        let init = v.drop_last();
        assert forall|k: int| 0 <= k < init.len() implies fits_frame(#[trigger] init[k]) by {
            assert(init[k] == v[k]);
        }
        lemma_framed_reads_back(init);
        assert(fits_frame(v[v.len() - 1]));
        lemma_framed_reads_back_one(v.last());
        lemma_client_frames_stream(framed_all(init), framed(v.last()));
        assert(Seq::<u8>::empty() + framed(v.last()) =~= framed(v.last()));
        assert(v.map_values(|m: PacketOrBlobModel| frame_of(m)) =~= init.map_values(
            |m: PacketOrBlobModel| frame_of(m),
        ) + seq![frame_of(v.last())]);
    }
}

/// The answer bytes of one response: the framed packets, or nothing for an
/// error.
pub open spec fn response_bytes(r: Result<Vec<PacketOrBlob>, StateError>) -> Seq<u8> {
    match r {
        Ok(v) => framed_all(packets_view(v@)),
        Err(_) => Seq::empty(),
    }
}

/// What one client packet does: a packet of an unknown type, or one that
/// does not read as exactly a whole known packet, is skipped; a packet that
/// reads is answered as `process_packet` answers it, and the answer's
/// packets are framed.
pub open spec fn frame_answer(s0: State, s1: State, i0: ConnectionInfo, i1: ConnectionInfo, f: ClientFrame, answer: Seq<u8>, tr: Seq<FrameModel>) -> bool {
    if PacketType::spec_from_u16(f.ptype) is None {
        s1 == s0 && i1 == i0 && answer == Seq::<u8>::empty() && tr == seq![client_frame_model(f)]
    } else {
        match <Packet as Wire>::spec_parse(f.packet, 0) {
            Ok((v, q)) => if q == f.packet.len() {
                exists|p: Packet, r: Result<Vec<PacketOrBlob>, StateError>|
                    p@ == v && #[trigger] packet_outcome(s0, s1, i0, i1, p, r) && answer == response_bytes(r)
                        && tr == seq![client_frame_model(f)] + response_frames(r)
            } else {
                s1 == s0 && i1 == i0 && answer == Seq::<u8>::empty() && tr == Seq::<FrameModel>::empty()
            },
            Err(_) => s1 == s0 && i1 == i0 && answer == Seq::<u8>::empty() && tr == Seq::<FrameModel>::empty(),
        }
    }
}

/// The trace entry of a packet from the client.
pub open spec fn client_frame_model(f: ClientFrame) -> FrameModel {
    FrameModel { source: PacketSource::Client, ptype: f.ptype, data: f.packet, dropped: false }
}

/// The trace entries of outgoing items: each with its type and its bytes.
pub open spec fn sent_frames(v: Seq<PacketOrBlobModel>) -> Seq<FrameModel> {
    v.map_values(
        |m: PacketOrBlobModel|
            FrameModel { source: PacketSource::Server, ptype: le16(item_bytes(m), 0), data: item_bytes(m), dropped: false },
    )
}

/// The trace entries of an answer: its packets, or none for an error.
pub open spec fn response_frames(r: Result<Vec<PacketOrBlob>, StateError>) -> Seq<FrameModel> {
    match r {
        Ok(v) => sent_frames(packets_view(v@)),
        Err(_) => Seq::empty(),
    }
}

proof fn lemma_packet_typed(m: PacketModel)
    ensures
        item_typed(PacketOrBlobModel::Packet(m)),
{
}

/// Appends every answer packet, framed; each goes to the trace too.
fn write_all(out: &mut Vec<u8>, v: &Vec<PacketOrBlob>, trace: &mut Vec<Frame>)
    requires
        forall|k: int| 0 <= k < v@.len() ==> item_typed(#[trigger] v@[k]@),
    ensures
        final(out)@ == old(out)@ + framed_all(packets_view(v@)),
        old(trace)@.len() <= final(trace)@.len(),
        final(trace)@.subrange(0, old(trace)@.len() as int) == old(trace)@,
        frames_view(final(trace)@) == frames_view(old(trace)@) + sent_frames(packets_view(v@)),
{
    let mut k: usize = 0;
    while k < v.len()
        invariant
            k <= v@.len(),
            forall|m: int| 0 <= m < v@.len() ==> item_typed(#[trigger] v@[m]@),
            out@ == old(out)@ + framed_all(packets_view(v@.subrange(0, k as int))),
            old(trace)@.len() <= trace@.len(),
            trace@.subrange(0, old(trace)@.len() as int) == old(trace)@,
            frames_view(trace@) == frames_view(old(trace)@) + sent_frames(packets_view(v@.subrange(0, k as int))),
        decreases v@.len() - k,
    {
        let (ptype, bytes) = write_packet(out, &v[k]);
        proof {
            assert(packets_view(v@.subrange(0, k + 1)).drop_last() =~= packets_view(v@.subrange(0, k as int)));
            assert(packets_view(v@.subrange(0, k + 1)).last() == v@[k as int]@);
        }
        let ghost t0 = trace@;
        trace.push(Frame { source: PacketSource::Server, ptype, data: bytes, dropped: false });
        assert(trace@.subrange(0, old(trace)@.len() as int) =~= t0.subrange(0, old(trace)@.len() as int));
        proof {
            assert(frames_view(trace@) =~= frames_view(t0).push(trace@.last()@));
            assert(sent_frames(packets_view(v@.subrange(0, k + 1))) =~= sent_frames(packets_view(v@.subrange(0, k as int))).push(
                trace@.last()@,
            ));
        }
        k = k + 1;
    }
    assert(v@.subrange(0, v@.len() as int) =~= v@);
}

/// Answers a packet that was read, appending the framed answer to `out`
/// and its packets to the trace.
fn answer_packet(
    state: &mut State,
    info: &mut ConnectionInfo,
    p: Packet,
    out: &mut Vec<u8>,
    trace: &mut Vec<Frame>,
) -> (r: Ghost<Result<Vec<PacketOrBlob>, StateError>>)
    ensures
        packet_outcome(*old(state), *final(state), *old(info), *final(info), p, r@),
        final(out)@ == old(out)@ + response_bytes(r@),
        frames_view(final(trace)@) == frames_view(old(trace)@) + response_frames(r@),
        old(trace)@.len() <= final(trace)@.len(),
        final(trace)@.subrange(0, old(trace)@.len() as int) == old(trace)@,
{
    let ghost pg = p;
    let r = process_packet(state, info, p);
    let ghost rg = r;
    match r {
        Ok(v) => {
            proof {
                assert forall|k: int| 0 <= k < v@.len() implies item_typed(#[trigger] v@[k]@) by {
                    match v@[k] {
                        PacketOrBlob::Packet(pk) => lemma_packet_typed(pk@),
                        PacketOrBlob::Blob(b) => {},
                    }
                }
            }
            write_all(out, &v, trace);
        },
        Err(_) => {
            assert(out@ =~= old(out)@ + Seq::<u8>::empty());
            assert(frames_view(trace@) =~= frames_view(old(trace)@) + Seq::<FrameModel>::empty());
            assert(trace@.subrange(0, old(trace)@.len() as int) =~= old(trace)@);
        },
    }
    Ghost(rg)
}

/// Answers one client packet (its type and its bytes after the size
/// field), appending the framed answer to `out`.
#[verifier::spinoff_prover]
#[verifier::rlimit(100)]
fn answer_frame(
    state: &mut State,
    info: &mut ConnectionInfo,
    ptype: u16,
    packet: &[u8],
    out: &mut Vec<u8>,
    trace: &mut Vec<Frame>,
)
    ensures
        exists|answer: Seq<u8>, tr: Seq<FrameModel>|
            #[trigger] frame_answer(
                *old(state),
                *final(state),
                *old(info),
                *final(info),
                ClientFrame { ptype, packet: packet@ },
                answer,
                tr,
            ) && final(out)@ == old(out)@ + answer && frames_view(final(trace)@) == frames_view(old(trace)@) + tr,
        old(trace)@.len() <= final(trace)@.len(),
        final(trace)@.subrange(0, old(trace)@.len() as int) == old(trace)@,
{
    let ghost f = ClientFrame { ptype, packet: packet@ };
    assert(packet@.subrange(0, packet@.len() as int) =~= packet@);
    if PacketType::from_u16(ptype).is_none() {
        trace.push(Frame { source: PacketSource::Client, ptype, data: copy_range(packet, 0, packet.len()), dropped: false });
        assert(trace@.subrange(0, old(trace)@.len() as int) =~= old(trace)@);
        assert(out@ == old(out)@ + Seq::<u8>::empty());
        assert(frames_view(trace@) =~= frames_view(old(trace)@) + seq![client_frame_model(f)]);
        assert(frame_answer(*old(state), *state, *old(info), *info, f, Seq::<u8>::empty(), seq![client_frame_model(f)]));
        return;
    }
    match read_checked::<Packet>(packet) {
        Ok(p) => {
            trace.push(Frame { source: PacketSource::Client, ptype, data: copy_range(packet, 0, packet.len()), dropped: false });
            let ghost t1 = trace@;
            assert(t1.subrange(0, old(trace)@.len() as int) =~= old(trace)@);
            assert(frames_view(t1) =~= frames_view(old(trace)@) + seq![client_frame_model(f)]);
            let ghost pg = p;
            let ghost s1 = *state;
            let ghost i1 = *info;
            let rg = answer_packet(state, info, p, out, trace);
            proof {
                assert(trace@.subrange(0, old(trace)@.len() as int) =~= t1.subrange(0, old(trace)@.len() as int));
                assert(frames_view(trace@) =~= frames_view(old(trace)@) + (seq![client_frame_model(f)] + response_frames(rg@)));
                assert(packet_outcome(s1, *state, i1, *info, pg, rg@));
            }
            assert(frame_answer(
                *old(state),
                *state,
                *old(info),
                *info,
                f,
                response_bytes(rg@),
                seq![client_frame_model(f)] + response_frames(rg@),
            ));
        },
        Err(_) => {
            assert(out@ == old(out)@ + Seq::<u8>::empty());
            assert(frames_view(trace@) =~= frames_view(old(trace)@) + Seq::<FrameModel>::empty());
            assert(frame_answer(*old(state), *state, *old(info), *info, f, Seq::<u8>::empty(), Seq::<FrameModel>::empty()));
        },
    }
}

/// Byte strings one after the other.
pub open spec fn concat(a: Seq<Seq<u8>>) -> Seq<u8>
    decreases a.len(),
{
    if a.len() == 0 {
        Seq::empty()
    } else {
        concat(a.drop_last()) + a.last()
    }
}

/// Trace entries one after the other.
pub open spec fn concat_frames(a: Seq<Seq<FrameModel>>) -> Seq<FrameModel>
    decreases a.len(),
{
    if a.len() == 0 {
        Seq::empty()
    } else {
        concat_frames(a.drop_last()) + a.last()
    }
}

/// The packets were answered in turn: `states` and `infos` hold the server
/// state and the connection before each packet and after the last, and
/// `answers` each packet's answer.
pub open spec fn answers_chain(
    states: Seq<State>,
    infos: Seq<ConnectionInfo>,
    frames: Seq<ClientFrame>,
    answers: Seq<Seq<u8>>,
    traces: Seq<Seq<FrameModel>>,
) -> bool {
    &&& states.len() == frames.len() + 1
    &&& infos.len() == frames.len() + 1
    &&& answers.len() == frames.len()
    &&& traces.len() == frames.len()
    &&& forall|k: int|
        0 <= k < frames.len() ==> #[trigger] frame_answer(
            states[k],
            states[k + 1],
            infos[k],
            infos[k + 1],
            frames[k],
            answers[k],
            traces[k],
        )
}

/// What bytes from the client do: they are appended to the stream
/// buffer, the whole packets in it are taken and answered in turn,
/// `out` is the answers' bytes, and the trace goes from `trace0` to
/// `trace1` by each packet's entries in turn.
pub open spec fn client_data_outcome(
    s0: State,
    s1: State,
    i0: ConnectionInfo,
    i1: ConnectionInfo,
    ring0: ByteRing,
    ring1: ByteRing,
    data: Seq<u8>,
    out: Seq<u8>,
    trace0: Seq<FrameModel>,
    trace1: Seq<FrameModel>,
) -> bool {
    let fr = client_frames(pushed_stream(ring0, data));
    &&& ring_contents(ring1) == fr.1
    &&& exists|states: Seq<State>, infos: Seq<ConnectionInfo>, answers: Seq<Seq<u8>>, traces: Seq<Seq<FrameModel>>|
        #[trigger] answers_chain(states, infos, fr.0, answers, traces) && states[0] == s0 && states.last() == s1
            && infos[0] == i0 && infos.last() == i1 && out == concat(answers)
            && trace1 == trace0 + concat_frames(traces)
}

/// Appends bytes from the client to the stream buffer and answers every
/// whole packet in it, in order; returns the answers' bytes.
pub fn process_client_data(
    state: &mut State,
    rxbuf: &mut ByteRing,
    info: &mut ConnectionInfo,
    data: &[u8],
    trace: &mut Vec<Frame>,
) -> (out: Vec<u8>)
    requires
        ring_contents(*old(rxbuf)).len() <= ring_capacity(*old(rxbuf)),
    ensures
        client_data_outcome(
            *old(state),
            *final(state),
            *old(info),
            *final(info),
            *old(rxbuf),
            *final(rxbuf),
            data@,
            out@,
            frames_view(old(trace)@),
            frames_view(final(trace)@),
        ),
        ring_capacity(*final(rxbuf)) == ring_capacity(*old(rxbuf)),
        ring_contents(*final(rxbuf)).len() <= ring_capacity(*final(rxbuf)),
        old(trace)@.len() <= final(trace)@.len(),
        final(trace)@.subrange(0, old(trace)@.len() as int) == old(trace)@,
{
    let ghost s = pushed_stream(*rxbuf, data@);
    let _ = rxbuf.push_slice(data);
    assert(ring_contents(*rxbuf) =~= s);
    let mut out: Vec<u8> = Vec::new();
    let ghost mut states: Seq<State> = seq![*state];
    let ghost mut infos: Seq<ConnectionInfo> = seq![*info];
    let ghost mut answers: Seq<Seq<u8>> = Seq::empty();
    let ghost mut frames: Seq<ClientFrame> = Seq::empty();
    let ghost mut traces: Seq<Seq<FrameModel>> = Seq::empty();
    assert(frames_view(old(trace)@) + concat_frames(traces) =~= frames_view(old(trace)@));
    loop
        invariant
            ring_contents(*rxbuf).len() <= ring_capacity(*rxbuf),
            ring_capacity(*rxbuf) == ring_capacity(*old(rxbuf)),
            old(trace)@.len() <= trace@.len(),
            trace@.subrange(0, old(trace)@.len() as int) == old(trace)@,
            answers_chain(states, infos, frames, answers, traces),
            states[0] == *old(state),
            states.last() == *state,
            infos[0] == *old(info),
            infos.last() == *info,
            out@ == concat(answers),
            frames_view(trace@) == frames_view(old(trace)@) + concat_frames(traces),
            ({
                let x = client_frames(ring_contents(*rxbuf));
                client_frames(s) == (frames + x.0, x.1)
            }),
        ensures
            ring_contents(*rxbuf).len() <= ring_capacity(*rxbuf),
            ring_capacity(*rxbuf) == ring_capacity(*old(rxbuf)),
            old(trace)@.len() <= trace@.len(),
            trace@.subrange(0, old(trace)@.len() as int) == old(trace)@,
            answers_chain(states, infos, frames, answers, traces),
            states[0] == *old(state),
            states.last() == *state,
            infos[0] == *old(info),
            infos.last() == *info,
            out@ == concat(answers),
            frames_view(trace@) == frames_view(old(trace)@) + concat_frames(traces),
            client_frames(s) == (frames, ring_contents(*rxbuf)),
        decreases ring_contents(*rxbuf).len(),
    {
        let ghost c = ring_contents(*rxbuf);
        let len = rxbuf.occupied_len();
        if len < 4 {
            assert(frames + Seq::<ClientFrame>::empty() =~= frames);
            break;
        }
        let mut hdr = vec_of_zeros(4);
        rxbuf.peek_slice(hdr.as_mut_slice());
        assert(hdr@ =~= c.subrange(0, 4));
        let size = read_le16(hdr.as_slice(), 0);
        let ptype = read_le16(hdr.as_slice(), 2);
        assert(size == le16(c, 0) && ptype == le16(c, 2));
        if size < 2 || len < size as usize {
            assert(frames + Seq::<ClientFrame>::empty() =~= frames);
            break;
        }
        let mut temp = vec_of_zeros(size as usize);
        rxbuf.pop_slice(temp.as_mut_slice());
        assert(temp@ =~= c.subrange(0, size as int));
        assert(ring_contents(*rxbuf) == c.subrange(size as int, c.len() as int));
        let packet = vstd::slice::slice_subrange(temp.as_slice(), 2, size as usize);
        let ghost f = ClientFrame { ptype, packet: packet@ };
        assert(f.packet =~= c.subrange(2, size as int));
        let ghost before = out@;
        let ghost s0 = *state;
        let ghost i0 = *info;
        let ghost tv0 = frames_view(trace@);
        answer_frame(state, info, ptype, packet, &mut out, trace);
        proof {
            let (ans, tr) = choose|a: Seq<u8>, t: Seq<FrameModel>| #[trigger] frame_answer(s0, *state, i0, *info, f, a, t)
                && out@ == before + a && frames_view(trace@) == tv0 + t;
            let old_states = states;
            let old_infos = infos;
            let old_answers = answers;
            let old_frames = frames;
            let old_traces = traces;
            states = states.push(*state);
            infos = infos.push(*info);
            answers = answers.push(ans);
            frames = frames.push(f);
            traces = traces.push(tr);
            assert forall|k: int| 0 <= k < frames.len() implies #[trigger] frame_answer(
                states[k],
                states[k + 1],
                infos[k],
                infos[k + 1],
                frames[k],
                answers[k],
                traces[k],
            ) by {
                if k < old_frames.len() {
                    assert(frame_answer(old_states[k], old_states[k + 1], old_infos[k], old_infos[k + 1], old_frames[k], old_answers[k], old_traces[k]));
                }
            }
            assert(answers.drop_last() =~= old_answers);
            assert(traces.drop_last() =~= old_traces);
            assert(frames_view(trace@) =~= frames_view(old(trace)@) + concat_frames(traces));
            let x = client_frames(ring_contents(*rxbuf));
            assert(client_frames(c) == (seq![f] + x.0, x.1));
            assert(old_frames + (seq![f] + x.0) =~= frames + x.0);
        }
    }
    out
}

/// The connection's cipher state.
pub enum CipherState {
    /// Waiting for the game's public key.
    Uninit,
    /// The channel is up.
    Encrypted {
        /// Receive state handed to the game.
        game_rx: CustomRc4,
        /// Send state handed to the game.
        game_tx: CustomRc4,
    },
}

/// The size of a connection's stream buffer.
pub const RX_BUFFER: usize = 1000000;

/// A game client's connection: its cipher state, what it knows of its
/// player, and its stream buffer.
pub struct ConnectionState {
    pub cipher: CipherState,
    pub cinfo: ConnectionInfo,
    pub rxbuf: ByteRing,
}

/// The stream buffer holds no more than its capacity.
pub open spec fn conn_wf(c: ConnectionState) -> bool {
    ring_contents(c.rxbuf).len() <= ring_capacity(c.rxbuf)
}

fn encrypted_client_step(
    game_rx: &mut CustomRc4,
    game_tx: &mut CustomRc4,
    state: &mut State,
    rxbuf: &mut ByteRing,
    cinfo: &mut ConnectionInfo,
    response: &mut Vec<u8>,
    data: &[u8],
    trace: &mut Vec<Frame>,
) -> (r: (bool, Ghost<Seq<u8>>))
    requires
        ring_contents(*old(rxbuf)).len() <= ring_capacity(*old(rxbuf)),
    ensures
        ring_contents(*final(rxbuf)).len() <= ring_capacity(*final(rxbuf)),
        old(trace)@.len() <= final(trace)@.len(),
        final(trace)@.subrange(0, old(trace)@.len() as int) == old(trace)@,
        client_data_outcome(
            *old(state),
            *final(state),
            *old(cinfo),
            *final(cinfo),
            *old(rxbuf),
            *final(rxbuf),
            apply(old(game_tx)@, data@),
            r.1@,
            frames_view(old(trace)@),
            frames_view(final(trace)@),
        ),
        final(response)@ == apply(old(game_rx)@, r.1@),
        r.0 == (r.1@.len() > 0),
        final(game_rx)@ == advance(old(game_rx)@, r.1@.len()),
        final(game_tx)@ == advance(old(game_tx)@, data@.len()),
{
    let mut plain = copy_range(data, 0, data.len());
    game_tx.xor_in_place(plain.as_mut_slice());
    let ghost pv = plain@;
    let mut resp = process_client_data(state, rxbuf, cinfo, plain.as_slice(), trace);
    let ghost ov = resp@;
    game_rx.xor_in_place(resp.as_mut_slice());
    *response = resp;
    assert(pv == apply(old(game_tx)@, data@));
    assert(client_data_outcome(
        *old(state),
        *state,
        *old(cinfo),
        *cinfo,
        *old(rxbuf),
        *rxbuf,
        pv,
        ov,
        frames_view(old(trace)@),
        frames_view(trace@),
    ));
    assert(response@ == apply(old(game_rx)@, ov));
    assert(game_rx@ == advance(old(game_rx)@, ov.len()));
    (response.len() > 0, Ghost(ov))
}

impl ConnectionState {
    /// A new connection: waiting for the key, knowing nothing of its
    /// player, with an empty buffer.
    pub fn new() -> (r: Self)
        ensures
            r.cipher is Uninit,
            r.cinfo == (ConnectionInfo { session: None, character_id: None, shard_id: None }),
            ring_contents(r.rxbuf) == Seq::<u8>::empty(),
            ring_capacity(r.rxbuf) == RX_BUFFER,
            conn_wf(r),
    {
        ConnectionState {
            cipher: CipherState::Uninit,
            cinfo: ConnectionInfo { session: None, character_id: None, shard_id: None },
            rxbuf: ByteRing::new(RX_BUFFER),
        }
    }

    /// Handles bytes read from the client. Before the channel is up, a
    /// 132-byte message is the game's public key: an accepted key is
    /// answered with fresh cipher states, a refused one is skipped without
    /// writing anything; other messages leave the last response in place.
    /// Once the channel is up, the bytes are decrypted, their packets
    /// answered, and the answer encrypted. Returns whether `response` is to
    /// be written (it is written when it is not empty).
    pub fn on_client_bytes(
        &mut self,
        state: &mut State,
        response: &mut Vec<u8>,
        data: &[u8],
        trace: &mut Vec<Frame>,
    ) -> (write: bool)
        requires
            conn_wf(*old(self)),
        ensures
            conn_wf(*final(self)),
            old(trace)@.len() <= final(trace)@.len(),
            final(trace)@.subrange(0, old(trace)@.len() as int) == old(trace)@,
            old(self).cipher is Uninit ==> {
                &&& *final(state) == *old(state)
                &&& final(self).cinfo == old(self).cinfo
                &&& final(self).rxbuf == old(self).rxbuf
            },
            old(self).cipher is Uninit && data@.len() != 132 ==> {
                &&& final(self).cipher is Uninit
                &&& final(response)@ == old(response)@
                &&& write == (old(response)@.len() > 0)
            },
            old(self).cipher is Uninit && data@.len() == 132 && !crate::cipher::public_key_accepted(
                crate::cipher::le_nat(data@.subrange(0, 128)),
                crate::cipher::le_nat(data@.subrange(128, 132)),
            ) ==> {
                &&& final(self).cipher is Uninit
                &&& final(response)@ == old(response)@
                &&& !write
            },
            old(self).cipher is Uninit && data@.len() == 132 && crate::cipher::public_key_accepted(
                crate::cipher::le_nat(data@.subrange(0, 128)),
                crate::cipher::le_nat(data@.subrange(128, 132)),
            ) ==> {
                &&& final(self).cipher matches CipherState::Encrypted { game_rx, game_tx }
                &&& game_rx@ == prepared_rx()
                &&& game_tx@ == zero_state()
                &&& final(response)@ == boxes_message()
                &&& write
            },
            old(self).cipher matches CipherState::Encrypted { game_rx, game_tx } ==> exists|out: Seq<u8>|
                {
                    &&& #[trigger] client_data_outcome(
                        *old(state),
                        *final(state),
                        old(self).cinfo,
                        final(self).cinfo,
                        old(self).rxbuf,
                        final(self).rxbuf,
                        apply(game_tx@, data@),
                        out,
                        frames_view(old(trace)@),
                        frames_view(final(trace)@),
                    )
                    &&& final(response)@ == apply(game_rx@, out)
                    &&& write == (out.len() > 0)
                    &&& final(self).cipher matches CipherState::Encrypted { game_rx: grx, game_tx: gtx }
                    &&& grx@ == advance(game_rx@, out.len())
                    &&& gtx@ == advance(game_tx@, data@.len())
                },
    {
        let mut cipher = CipherState::Uninit;
        std::mem::swap(&mut cipher, &mut self.cipher);
        match cipher {
            CipherState::Uninit => {
                if data.len() == 132 {
                    match read_game_pubkey(data) {
                        Ok(_) => {},
                        Err(_) => {
                            return false;
                        },
                    }
                    let (game_rx, game_tx, out) = prepare_rc4_boxes();
                    self.cipher = CipherState::Encrypted { game_rx, game_tx };
                    *response = out;
                }
                response.len() > 0
            },
            CipherState::Encrypted { mut game_rx, mut game_tx } => {
                let ghost rx0 = game_rx@;
                let ghost tx0 = game_tx@;
                let (write, out) = encrypted_client_step(
                    &mut game_rx,
                    &mut game_tx,
                    state,
                    &mut self.rxbuf,
                    &mut self.cinfo,
                    response,
                    data,
                    trace,
                );
                self.cipher = CipherState::Encrypted { game_rx, game_tx };
                assert(client_data_outcome(
                    *old(state),
                    *state,
                    old(self).cinfo,
                    self.cinfo,
                    old(self).rxbuf,
                    self.rxbuf,
                    apply(tx0, data@),
                    out@,
                    frames_view(old(trace)@),
                    frames_view(trace@),
                ));
                write
            },
        }
    }

    /// Handles packets that the player's location sent: once the channel is
    /// up they become the response, framed and encrypted; before that the
    /// last response stays. Returns whether `response` is to be written.
    pub fn on_shard_packets(&mut self, response: &mut Vec<u8>, packets: Vec<Packet>, trace: &mut Vec<Frame>) -> (write: bool)
        ensures
            final(self).cinfo == old(self).cinfo,
            final(self).rxbuf == old(self).rxbuf,
            old(trace)@.len() <= final(trace)@.len(),
            final(trace)@.subrange(0, old(trace)@.len() as int) == old(trace)@,
            write == (final(response)@.len() > 0),
            match old(self).cipher {
                CipherState::Uninit => final(self).cipher is Uninit && final(response)@ == old(response)@
                    && final(trace)@ == old(trace)@,
                CipherState::Encrypted { game_rx, game_tx } => {
                    let items = packets@.map_values(|p: Packet| PacketOrBlobModel::Packet(p@));
                    let bytes = framed_all(items);
                    &&& final(response)@ == apply(game_rx@, bytes)
                    &&& frames_view(final(trace)@) == frames_view(old(trace)@) + sent_frames(items)
                    &&& final(self).cipher matches CipherState::Encrypted { game_rx: grx, game_tx: gtx }
                    &&& grx@ == advance(game_rx@, bytes.len()) && gtx@ == game_tx@
                },
            },
    {
        match &mut self.cipher {
            CipherState::Uninit => response.len() > 0,
            CipherState::Encrypted { game_rx, game_tx: _ } => {
                let mut items: Vec<PacketOrBlob> = Vec::new();
                let mut packets = packets;
                let ghost pv = packets@;
                let n = packets.len();
                let mut k: usize = 0;
                while k < n
                    invariant
                        k <= n,
                        n == pv.len(),
                        packets@ == pv.subrange(k as int, n as int),
                        packets_view(items@) == pv.subrange(0, k as int).map_values(|p: Packet| PacketOrBlobModel::Packet(p@)),
                        forall|m: int| 0 <= m < items@.len() ==> (#[trigger] items@[m]) is Packet,
                        items@.len() == k,
                    decreases n - k,
                {
                    let p = packets.remove(0);
                    assert(p == pv[k as int]);
                    let ghost before = items@;
                    items.push(PacketOrBlob::Packet(p));
                    proof {
                        assert(packets_view(items@) =~= packets_view(before).push(PacketOrBlobModel::Packet(pv[k as int]@)));
                        assert(packets_view(items@) =~= pv.subrange(0, k + 1).map_values(|p: Packet| PacketOrBlobModel::Packet(p@)));
                        assert(packets@ =~= pv.subrange(k + 1, n as int));
                    }
                    k = k + 1;
                }
                assert(pv.subrange(0, n as int) =~= pv);
                let mut resp: Vec<u8> = Vec::new();
                proof {
                    assert forall|m: int| 0 <= m < items@.len() implies item_typed(#[trigger] items@[m]@) by {
                        match items@[m] {
                            PacketOrBlob::Packet(pk) => lemma_packet_typed(pk@),
                            PacketOrBlob::Blob(_) => {},
                        }
                    }
                }
                write_all(&mut resp, &items, trace);
                assert(resp@ =~= framed_all(pv.map_values(|p: Packet| PacketOrBlobModel::Packet(p@))));
                assert(packets_view(items@) =~= pv.map_values(|p: Packet| PacketOrBlobModel::Packet(p@)));
                game_rx.xor_in_place(resp.as_mut_slice());
                *response = resp;
                response.len() > 0
            },
        }
    }
}

} // verus!
