//! Man-in-the-middle handling between the game client and the server: the
//! key exchange is answered with our own keys, and once the channel is up
//! every packet is decrypted, framed, filtered and encrypted again.
use vstd::prelude::*;
use crate::cipher::{
    CipherError, read_game_pubkey, fresh_key_reply, import_server_boxes, prepare_rc4_boxes,
    public_key_accepted, le_nat, key_reply, boxes_message,
    answer_accepted, answer_states_taken, answer_refusal, answers_with_key, RsaKeyParts,
};
use crate::le::{le16, read_le16};
use crate::protocol::PacketType;
use crate::rc4::{CustomRc4, apply, advance};
use crate::ring::{ByteRing, ring_contents, ring_capacity};
use crate::rqode_binrw::{zlib_inflate, zlib_decompress, ZLIB_CAPACITY};
use crate::text::{copy_range, vec_of_zeros};

verus! {

/// Which side sent a packet.
#[derive(Clone, Copy, Debug, PartialEq, Eq, Structural)]
pub enum PacketSource {
    Client,
    Server,
}

/// Packet types that are taken out of the stream.
pub const DROP: [u16; 14] = [
    0x415, 0x90, 0x3E9, 0x3EA, 0x3FA, 0x116, 0x117, 0xCE, 0x408, 0x410, 0x412, 0xEB, 0x2780, 0x1B6,
];

/// Packet types after which every packet is taken out of the stream.
pub const STOP: [u16; 0] = [];

/// The type is on the drop list.
pub open spec fn drop_listed(t: u16) -> bool {
    DROP@.contains(t)
}

/// The type is on the stop list.
pub open spec fn stop_listed(t: u16) -> bool {
    STOP@.contains(t)
}

fn list_contains(list: &[u16], t: u16) -> (r: bool)
    ensures
        r == list@.contains(t),
{
    let mut k: usize = 0;
    while k < list.len()
        invariant
            k <= list@.len(),
            forall|m: int| 0 <= m < k ==> list@[m] != t,
        decreases list@.len() - k,
    {
        if list[k] == t {
            return true;
        }
        k = k + 1;
    }
    false
}

/// A packet taken from the stream, for the tracer: its type, its bytes
/// after the size field (type first), and whether it was dropped.
#[derive(Clone, Debug)]
pub struct Frame {
    pub source: PacketSource,
    pub ptype: u16,
    pub data: Vec<u8>,
    pub dropped: bool,
}

/// Mathematical form of [`Frame`].
pub struct FrameModel {
    pub source: PacketSource,
    pub ptype: u16,
    pub data: Seq<u8>,
    pub dropped: bool,
}

impl View for Frame {
    type V = FrameModel;

    open spec fn view(&self) -> FrameModel {
        FrameModel { source: self.source, ptype: self.ptype, data: self.data@, dropped: self.dropped }
    }
}

/// The views of a list of frames.
pub open spec fn frames_view(v: Seq<Frame>) -> Seq<FrameModel> {
    v.map_values(|f: Frame| f@)
}

/// The zlib payload of a compressed packet unpacks to a packet of a
/// dropped type (an unpacked packet too short to have a type is not
/// dropped).
pub open spec fn compressed_drop(z: Seq<u8>) -> bool {
    match zlib_inflate(z, ZLIB_CAPACITY) {
        Some(x) => x.len() >= 4 && drop_listed(le16(x, 2)),
        None => false,
    }
}

/// The packet at the front of `s` is too short to hold its size field, or
/// is a compressed packet too short to hold its header.
pub open spec fn frame_cut(s: Seq<u8>) -> bool {
    le16(s, 0) < 2 || (le16(s, 2) == PacketType::CompressedData.spec_code() && le16(s, 0) < 4)
}

/// What framing a stream gives: the bytes passed on, the frames taken, the
/// bytes left for later and the stop state.
pub struct FramingModel {
    pub out: Seq<u8>,
    pub frames: Seq<FrameModel>,
    pub rest: Seq<u8>,
    pub drop_all: bool,
}

/// Framing of a byte stream: each packet is a little-endian u16 size
/// (counting itself), a u16 type and a body. Whole packets are taken from
/// the front; a packet is dropped if its type is on the drop list, if the
/// stop state is on (a stop-listed type turns it on), or if it is a
/// compressed packet holding a dropped type; the others are passed on as
/// they are. Framing stops at an incomplete packet, and at one whose size
/// does not cover its size field (or, for a compressed packet, its
/// header).
pub open spec fn spec_on_packet(source: PacketSource, s: Seq<u8>, drop_all: bool) -> FramingModel
    decreases s.len(),
{
    if s.len() < 4 || frame_cut(s) || s.len() < le16(s, 0) {
        FramingModel { out: Seq::empty(), frames: Seq::empty(), rest: s, drop_all }
    } else {
        let n = le16(s, 0) as int;
        let f = s.subrange(0, n);
        let t = le16(s, 2);
        let da = drop_all || stop_listed(t);
        let dropped = da || drop_listed(t) || (t == PacketType::CompressedData.spec_code()
            && compressed_drop(s.subrange(4, n)));
        let r = spec_on_packet(source, s.subrange(n, s.len() as int), da);
        FramingModel {
            out: (if dropped { Seq::empty() } else { f }) + r.out,
            frames: seq![FrameModel { source, ptype: t, data: f.subrange(2, n), dropped }] + r.frames,
            rest: r.rest,
            drop_all: r.drop_all,
        }
    }
}

/// Compressed-drop law: a whole compressed packet at the front of the
/// stream whose unpacked bytes (at least four) carry, after their own size
/// field, a packet type on the drop list is taken as a dropped frame of the
/// compressed type, and none of its bytes are passed on: what is passed on
/// is what framing the rest of the stream passes on.
pub proof fn lemma_compressed_inner_dropped(source: PacketSource, s: Seq<u8>, drop_all: bool, x: Seq<u8>)
    requires
        4 <= le16(s, 0) <= s.len(),
        le16(s, 2) == PacketType::CompressedData.spec_code(),
        zlib_inflate(s.subrange(4, le16(s, 0) as int), ZLIB_CAPACITY) == Some(x),
        x.len() >= 4,
        DROP@.contains((x[2] as int + 256 * x[3] as int) as u16),
    ensures
        ({
            let n = le16(s, 0) as int;
            let m = spec_on_packet(source, s, drop_all);
            let r = spec_on_packet(
                source,
                s.subrange(n, s.len() as int),
                drop_all || stop_listed(PacketType::CompressedData.spec_code()),
            );
            &&& m.frames.len() >= 1
            &&& m.frames[0].ptype == PacketType::CompressedData.spec_code()
            &&& m.frames[0].dropped
            &&& m.out == r.out
        }),
{
    let n = le16(s, 0) as int;
    assert(le16(x, 2) == (x[2] as int + 256 * x[3] as int) as u16);
    assert(compressed_drop(s.subrange(4, n)));
    assert(Seq::<u8>::empty() + spec_on_packet(
        source,
        s.subrange(n, s.len() as int),
        drop_all || stop_listed(PacketType::CompressedData.spec_code()),
    ).out =~= spec_on_packet(
        source,
        s.subrange(n, s.len() as int),
        drop_all || stop_listed(PacketType::CompressedData.spec_code()),
    ).out);
}

/// Streaming law: framing a stream that arrives in two parts gives what
/// framing its first part gives, followed by what framing the rest of it
/// with the second part appended gives (in the stop state the first part
/// left), and ends as framing the whole stream ends.
pub proof fn lemma_framing_streams(source: PacketSource, s: Seq<u8>, t: Seq<u8>, drop_all: bool)
    ensures
        ({
            let a = spec_on_packet(source, s, drop_all);
            let b = spec_on_packet(source, a.rest + t, a.drop_all);
            spec_on_packet(source, s + t, drop_all) == (FramingModel {
                out: a.out + b.out,
                frames: a.frames + b.frames,
                rest: b.rest,
                drop_all: b.drop_all,
            })
        }),
    decreases s.len(),
{
    let a = spec_on_packet(source, s, drop_all);
    let st = s + t;
    let whole = spec_on_packet(source, st, drop_all);
    if s.len() < 4 || frame_cut(s) || s.len() < le16(s, 0) {
        assert(a.out + whole.out =~= whole.out);
        assert(a.frames + whole.frames =~= whole.frames);
    } else {
        let n = le16(s, 0) as int;
        assert(st[0] == s[0] && st[1] == s[1] && st[2] == s[2] && st[3] == s[3]);
        assert(le16(st, 0) == le16(s, 0));
        assert(le16(st, 2) == le16(s, 2));
        assert(st.subrange(0, n) =~= s.subrange(0, n));
        if n >= 4 {
            assert(st.subrange(4, n) =~= s.subrange(4, n));
        }
        let rest = s.subrange(n, s.len() as int);
        assert(st.subrange(n, st.len() as int) =~= rest + t);
        let tp = le16(s, 2);
        let da = drop_all || stop_listed(tp);
        lemma_framing_streams(source, rest, t, da);
        let r = spec_on_packet(source, rest, da);
        let b = spec_on_packet(source, r.rest + t, r.drop_all);
        assert(whole.out =~= a.out + b.out);
        assert(whole.frames =~= a.frames + b.frames);
    }
}

/// The stream after appending `data` to the ring: as much of it as there is
/// room for.
pub open spec fn pushed_stream(r: ByteRing, data: Seq<u8>) -> Seq<u8> {
    let room = ring_capacity(r) - ring_contents(r).len();
    ring_contents(r) + if data.len() <= room {
        data
    } else {
        data.subrange(0, room)
    }
}

fn append_bytes(out: &mut Vec<u8>, src: &[u8])
    ensures
        final(out)@ == old(out)@ + src@,
{
    let mut k: usize = 0;
    while k < src.len()
        invariant
            k <= src@.len(),
            out@ == old(out)@ + src@.subrange(0, k as int),
        decreases src@.len() - k,
    {
        out.push(src[k]);
        k = k + 1;
        assert(out@ =~= old(out)@ + src@.subrange(0, k as int));
    }
    assert(src@.subrange(0, src@.len() as int) =~= src@);
}

/// Decides whether a compressed packet (its bytes `f`) holds a dropped
/// type.
fn compressed_dropped(f: &[u8]) -> (r: bool)
    requires
        f@.len() >= 4,
    ensures
        r == compressed_drop(f@.subrange(4, f@.len() as int)),
{
    match zlib_decompress(vstd::slice::slice_subrange(f, 4, f.len())) {
        Ok(x) => {
            if x.len() >= 4 {
                list_contains(&DROP, read_le16(x.as_slice(), 2))
            } else {
                false
            }
        },
        Err(_) => false,
    }
}

/// Appends bytes to the stream buffer and takes every whole packet out of
/// it: kept packets are returned, in order, to be passed on, and every
/// packet taken (dropped or not) is added to `trace`.
pub fn on_packet(
    drop_all: &mut bool,
    source: PacketSource,
    buf: &mut ByteRing,
    data: &[u8],
    trace: &mut Vec<Frame>,
) -> (out: Vec<u8>)
    requires
        ring_contents(*old(buf)).len() <= ring_capacity(*old(buf)),
    ensures
        ({
            let m = spec_on_packet(source, pushed_stream(*old(buf), data@), *old(drop_all));
            &&& out@ == m.out
            &&& ring_contents(*final(buf)) == m.rest
            &&& *final(drop_all) == m.drop_all
            &&& frames_view(final(trace)@) == frames_view(old(trace)@) + m.frames
        }),
        ring_capacity(*final(buf)) == ring_capacity(*old(buf)),
        ring_contents(*final(buf)).len() <= ring_capacity(*final(buf)),
{
    let ghost s = pushed_stream(*buf, data@);
    let ghost da0 = *drop_all;
    let ghost t0 = frames_view(trace@);
    let _ = buf.push_slice(data);
    assert(ring_contents(*buf) =~= s);
    let mut out: Vec<u8> = Vec::new();
    let ghost mut acc: Seq<FrameModel> = Seq::empty();
    loop
        invariant
            ring_contents(*buf).len() <= ring_capacity(*buf),
            ring_capacity(*buf) == ring_capacity(*old(buf)),
            frames_view(trace@) == t0 + acc,
            ({
                let x = spec_on_packet(source, ring_contents(*buf), *drop_all);
                spec_on_packet(source, s, da0) == (FramingModel {
                    out: out@ + x.out,
                    frames: acc + x.frames,
                    rest: x.rest,
                    drop_all: x.drop_all,
                })
            }),
        ensures
            ring_contents(*buf).len() <= ring_capacity(*buf),
            ring_capacity(*buf) == ring_capacity(*old(buf)),
            frames_view(trace@) == t0 + acc,
            spec_on_packet(source, s, da0) == (FramingModel {
                out: out@,
                frames: acc,
                rest: ring_contents(*buf),
                drop_all: *drop_all,
            }),
        decreases ring_contents(*buf).len(),
    {
        let ghost c = ring_contents(*buf);
        let len = buf.occupied_len();
        if len < 4 {
            assert(out@ + Seq::<u8>::empty() =~= out@);
            assert(acc + Seq::<FrameModel>::empty() =~= acc);
            break;
        }
        let mut hdr = vec_of_zeros(4);
        buf.peek_slice(hdr.as_mut_slice());
        assert(hdr@ =~= c.subrange(0, 4));
        let size = read_le16(hdr.as_slice(), 0);
        let ptype = read_le16(hdr.as_slice(), 2);
        assert(size == le16(c, 0) && ptype == le16(c, 2));
        if size < 2 || (ptype == PacketType::CompressedData.code() && size < 4) || len < size as usize {
            assert(out@ + Seq::<u8>::empty() =~= out@);
            assert(acc + Seq::<FrameModel>::empty() =~= acc);
            break;
        }
        let ghost n = size as int;
        let ghost f = c.subrange(0, n);
        let ghost da = *drop_all;
        if list_contains(&STOP, ptype) {
            *drop_all = true;
        }
        let mut drop_compr = false;
        if ptype == PacketType::CompressedData.code() {
            let mut temp = vec_of_zeros(size as usize);
            buf.peek_slice(temp.as_mut_slice());
            assert(temp@ =~= f);
            assert(f.subrange(4, n) =~= c.subrange(4, n));
            drop_compr = compressed_dropped(temp.as_slice());
        }
        let dropped = list_contains(&DROP, ptype) || *drop_all || drop_compr;
        assert(dropped == (da || stop_listed(ptype) || drop_listed(ptype) || (ptype
            == PacketType::CompressedData.spec_code() && compressed_drop(c.subrange(4, n)))));
        let mut temp = vec_of_zeros(size as usize);
        buf.pop_slice(temp.as_mut_slice());
        assert(temp@ =~= f);
        assert(ring_contents(*buf) == c.subrange(n, c.len() as int));
        let ghost before = out@;
        if !dropped {
            append_bytes(&mut out, temp.as_slice());
        }
        let fr = Frame { source, ptype, data: copy_range(temp.as_slice(), 2, size as usize), dropped };
        let ghost fm = fr@;
        let ghost tv = trace@;
        trace.push(fr);
        proof {
            assert(frames_view(trace@) =~= frames_view(tv).push(fm));
            let x = spec_on_packet(source, ring_contents(*buf), *drop_all);
            let y = spec_on_packet(source, c, da);
            assert(y.out == (if dropped { Seq::<u8>::empty() } else { f }) + x.out);
            assert(y.frames == seq![fm] + x.frames);
            if dropped {
                assert(out@ =~= before);
                assert(before + y.out =~= out@ + x.out);
            } else {
                assert(out@ =~= before + f);
                assert(before + y.out =~= out@ + x.out);
            }
            assert(acc + y.frames =~= acc.push(fm) + x.frames);
            acc = acc.push(fm);
            assert(frames_view(trace@) =~= t0 + acc);
        }
    }
    out
}

/// The key-exchange state of a proxied connection.
pub enum CipherS {
    /// Nothing received yet.
    Uninit,
    /// The game's key has arrived and been answered with ours.
    ClientHandshakeReceived { my_key: RsaKeyParts, game_pubk: rsa::RsaPublicKey },
    /// Both sides have their cipher states.
    EncryptedChannel {
        /// Receive state handed to the game.
        game_rx: CustomRc4,
        /// Send state handed to the game.
        game_tx: CustomRc4,
        /// Receive state sent by the server.
        srv_rx: CustomRc4,
        /// Send state sent by the server.
        srv_tx: CustomRc4,
    },
}

/// The size of each direction's stream buffer.
pub const STREAM_BUFFER: usize = 1000000;

/// A proxied game connection: the key exchange, the stream buffers of both
/// directions and the packets taken for the tracer.
pub struct Mitm {
    cipher_state: CipherS,
    passthrough: bool,
    rx_buf: ByteRing,
    tx_buf: ByteRing,
    drop_packets: bool,
    trace: Vec<Frame>,
}

/// Answers the game's public key with a fresh key of ours.
fn client_hello(data: &[u8]) -> (r: Result<(RsaKeyParts, rsa::RsaPublicKey, Vec<u8>), CipherError>)
    requires
        data@.len() == 132,
    ensures
        !public_key_accepted(le_nat(data@.subrange(0, 128)), le_nat(data@.subrange(128, 132)))
            ==> r matches Err(CipherError::Rsa(_)),
        r matches Ok((k, _, v)) ==> answers_with_key(k, v@),
        r matches Err(e) ==> e is Rsa,
{
    let game_pubk = read_game_pubkey(data)?;
    let (my_key, out) = fresh_key_reply()?;
    Ok((my_key, game_pubk, out))
}

/// Relays bytes on an open channel: decrypts them with `dec`, frames and
/// filters them, and encrypts what is kept with `enc`.
fn relay(
    dec: &mut CustomRc4,
    enc: &mut CustomRc4,
    drop_all: &mut bool,
    source: PacketSource,
    ring: &mut ByteRing,
    trace: &mut Vec<Frame>,
    data: &[u8],
) -> (r: Vec<u8>)
    requires
        ring_contents(*old(ring)).len() <= ring_capacity(*old(ring)),
    ensures
        ({
            let m = spec_on_packet(source, pushed_stream(*old(ring), apply(old(dec)@, data@)), *old(drop_all));
            &&& r@ == apply(old(enc)@, m.out)
            &&& final(dec)@ == advance(old(dec)@, data@.len())
            &&& final(enc)@ == advance(old(enc)@, m.out.len())
            &&& ring_contents(*final(ring)) == m.rest
            &&& *final(drop_all) == m.drop_all
            &&& frames_view(final(trace)@) == frames_view(old(trace)@) + m.frames
        }),
        ring_capacity(*final(ring)) == ring_capacity(*old(ring)),
        ring_contents(*final(ring)).len() <= ring_capacity(*final(ring)),
{
    let ghost d0 = dec@;
    let ghost e0 = enc@;
    let mut plain = copy_range(data, 0, data.len());
    dec.xor_in_place(plain.as_mut_slice());
    assert(plain@ == apply(d0, data@));
    assert(dec@ == advance(d0, data@.len()));
    let mut kept = on_packet(drop_all, source, ring, plain.as_slice(), trace);
    let ghost k0 = kept@;
    enc.xor_in_place(kept.as_mut_slice());
    assert(kept@ == apply(e0, k0));
    assert(enc@ == advance(e0, k0.len()));
    kept
}

fn game_step(
    cipher: &mut CipherS,
    drop_all: &mut bool,
    ring: &mut ByteRing,
    trace: &mut Vec<Frame>,
    data: &[u8],
) -> (r: Result<Vec<u8>, CipherError>)
    requires
        ring_contents(*old(ring)).len() <= ring_capacity(*old(ring)),
    ensures
        ring_contents(*final(ring)).len() <= ring_capacity(*final(ring)),
        match *old(cipher) {
            CipherS::Uninit => {
                &&& *final(ring) == *old(ring)
                &&& *final(drop_all) == *old(drop_all)
                &&& final(trace)@ == old(trace)@
                &&& if data@.len() != 132 {
                    r matches Err(CipherError::ExpectedClientHandshake) && *final(cipher) is Uninit
                } else if !public_key_accepted(
                    le_nat(data@.subrange(0, 128)),
                    le_nat(data@.subrange(128, 132)),
                ) {
                    r matches Err(CipherError::Rsa(_)) && *final(cipher) is Uninit
                } else {
                    &&& r matches Ok(v) ==> (*final(cipher) matches CipherS::ClientHandshakeReceived { my_key, .. }
                        && answers_with_key(my_key, v@))
                    &&& r matches Err(e) ==> e is Rsa && *final(cipher) is Uninit
                }
            },
            CipherS::ClientHandshakeReceived { .. } => {
                &&& r matches Err(CipherError::UnexpectedClientMessage)
                &&& *final(cipher) == *old(cipher)
                &&& *final(ring) == *old(ring)
                &&& *final(drop_all) == *old(drop_all)
                &&& final(trace)@ == old(trace)@
            },
            CipherS::EncryptedChannel { game_rx, game_tx, srv_rx, srv_tx } => {
                let m = spec_on_packet(
                    PacketSource::Client,
                    pushed_stream(*old(ring), apply(game_tx@, data@)),
                    *old(drop_all),
                );
                &&& r matches Ok(v) && v@ == apply(srv_tx@, m.out)
                &&& *final(cipher) matches CipherS::EncryptedChannel {
                    game_rx: grx,
                    game_tx: gtx,
                    srv_rx: srx,
                    srv_tx: stx,
                }
                &&& grx@ == game_rx@ && srx@ == srv_rx@
                &&& gtx@ == advance(game_tx@, data@.len()) && stx@ == advance(srv_tx@, m.out.len())
                &&& ring_contents(*final(ring)) == m.rest
                &&& ring_capacity(*final(ring)) == ring_capacity(*old(ring))
                &&& *final(drop_all) == m.drop_all
                &&& frames_view(final(trace)@) == frames_view(old(trace)@) + m.frames
            },
        },
{
    match cipher {
        CipherS::Uninit => {
            if data.len() == 132 {
                let (my_key, game_pubk, out) = client_hello(data)?;
                *cipher = CipherS::ClientHandshakeReceived { my_key, game_pubk };
                Ok(out)
            } else {
                Err(CipherError::ExpectedClientHandshake)
            }
        },
        CipherS::ClientHandshakeReceived { .. } => Err(CipherError::UnexpectedClientMessage),
        CipherS::EncryptedChannel { game_rx: _, game_tx, srv_rx: _, srv_tx } => {
            Ok(relay(game_tx, srv_tx, drop_all, PacketSource::Client, ring, trace, data))
        },
    }
}

fn server_step(
    cipher: &mut CipherS,
    drop_all: &mut bool,
    ring: &mut ByteRing,
    trace: &mut Vec<Frame>,
    data: &[u8],
) -> (r: Result<Vec<u8>, CipherError>)
    requires
        ring_contents(*old(ring)).len() <= ring_capacity(*old(ring)),
    ensures
        ring_contents(*final(ring)).len() <= ring_capacity(*final(ring)),
        match *old(cipher) {
            CipherS::Uninit => {
                &&& r matches Err(CipherError::UnexpectedServerMessage)
                &&& *final(cipher) == *old(cipher)
                &&& *final(ring) == *old(ring)
                &&& *final(drop_all) == *old(drop_all)
                &&& final(trace)@ == old(trace)@
            },
            CipherS::ClientHandshakeReceived { my_key, .. } => {
                &&& *final(ring) == *old(ring)
                &&& *final(drop_all) == *old(drop_all)
                &&& final(trace)@ == old(trace)@
                &&& if data@.len() != 640 {
                    r matches Err(CipherError::ExpectedServerHandshake) && *final(cipher) == *old(cipher)
                } else if answer_accepted(my_key, data@) {
                    &&& r matches Ok(v) && v@ == boxes_message()
                    &&& *final(cipher) matches CipherS::EncryptedChannel { game_rx, game_tx, srv_rx, srv_tx }
                    &&& answer_states_taken(my_key, data@, game_rx@, game_tx@, srv_rx@, srv_tx@)
                } else {
                    answer_refusal(my_key, data@, r) && *final(cipher) == *old(cipher)
                }
            },
            CipherS::EncryptedChannel { game_rx, game_tx, srv_rx, srv_tx } => {
                let m = spec_on_packet(
                    PacketSource::Server,
                    pushed_stream(*old(ring), apply(srv_rx@, data@)),
                    *old(drop_all),
                );
                &&& r matches Ok(v) && v@ == apply(game_rx@, m.out)
                &&& *final(cipher) matches CipherS::EncryptedChannel {
                    game_rx: grx,
                    game_tx: gtx,
                    srv_rx: srx,
                    srv_tx: stx,
                }
                &&& gtx@ == game_tx@ && stx@ == srv_tx@
                &&& grx@ == advance(game_rx@, m.out.len()) && srx@ == advance(srv_rx@, data@.len())
                &&& ring_contents(*final(ring)) == m.rest
                &&& ring_capacity(*final(ring)) == ring_capacity(*old(ring))
                &&& *final(drop_all) == m.drop_all
                &&& frames_view(final(trace)@) == frames_view(old(trace)@) + m.frames
            },
        },
{
    match cipher {
        CipherS::Uninit => Err(CipherError::UnexpectedServerMessage),
        CipherS::ClientHandshakeReceived { my_key, game_pubk: _ } => {
            if data.len() == 640 {
                let (srv_rx, srv_tx) = import_server_boxes(my_key, data)?;
                let (game_rx, game_tx, out) = prepare_rc4_boxes();
                *cipher = CipherS::EncryptedChannel { game_rx, game_tx, srv_rx, srv_tx };
                Ok(out)
            } else {
                Err(CipherError::ExpectedServerHandshake)
            }
        },
        CipherS::EncryptedChannel { game_rx, game_tx: _, srv_rx, srv_tx: _ } => {
            Ok(relay(srv_rx, game_rx, drop_all, PacketSource::Server, ring, trace, data))
        },
    }
}

impl Mitm {
    /// Well-formedness: each buffer holds no more than its capacity.
    pub closed spec fn wf(self) -> bool {
        &&& ring_contents(self.rx_buf).len() <= ring_capacity(self.rx_buf)
        &&& ring_contents(self.tx_buf).len() <= ring_capacity(self.tx_buf)
    }

    /// Every part of the two connections is the same.
    pub open spec fn same_as(self, other: Mitm) -> bool {
        &&& self.cipher() == other.cipher()
        &&& self.relays() == other.relays()
        &&& self.rx_ring() == other.rx_ring()
        &&& self.tx_ring() == other.tx_ring()
        &&& self.dropping() == other.dropping()
        &&& self.traced() == other.traced()
    }

    /// The key-exchange state.
    pub closed spec fn cipher(self) -> CipherS {
        self.cipher_state
    }

    /// Whether bytes are relayed untouched.
    pub closed spec fn relays(self) -> bool {
        self.passthrough
    }

    /// The buffer of server-to-game bytes.
    pub closed spec fn rx_ring(self) -> ByteRing {
        self.rx_buf
    }

    /// The buffer of game-to-server bytes.
    pub closed spec fn tx_ring(self) -> ByteRing {
        self.tx_buf
    }

    /// Whether every packet is being dropped.
    pub closed spec fn dropping(self) -> bool {
        self.drop_packets
    }

    /// The packets taken since the trace was last collected.
    pub closed spec fn traced(self) -> Seq<FrameModel> {
        frames_view(self.trace@)
    }

    /// A connection in the key exchange's first state, with empty buffers.
    pub fn new(passthrough: bool) -> (r: Self)
        ensures
            r.wf(),
            r.cipher() is Uninit,
            r.relays() == passthrough,
            ring_contents(r.rx_ring()) == Seq::<u8>::empty(),
            ring_contents(r.tx_ring()) == Seq::<u8>::empty(),
            ring_capacity(r.rx_ring()) == STREAM_BUFFER,
            ring_capacity(r.tx_ring()) == STREAM_BUFFER,
            !r.dropping(),
            r.traced() == Seq::<FrameModel>::empty(),
    {
        let r = Mitm {
            cipher_state: CipherS::Uninit,
            passthrough,
            rx_buf: ByteRing::new(STREAM_BUFFER),
            tx_buf: ByteRing::new(STREAM_BUFFER),
            drop_packets: false,
            trace: Vec::new(),
        };
        assert(frames_view(r.trace@) =~= Seq::<FrameModel>::empty());
        r
    }

    /// Hands out the packets taken since the last call and forgets them.
    pub fn take_trace(&mut self) -> (r: Vec<Frame>)
        requires
            old(self).wf(),
        ensures
            final(self).wf(),
            frames_view(r@) == old(self).traced(),
            final(self).traced() == Seq::<FrameModel>::empty(),
            final(self).cipher() == old(self).cipher(),
            final(self).relays() == old(self).relays(),
            final(self).rx_ring() == old(self).rx_ring(),
            final(self).tx_ring() == old(self).tx_ring(),
            final(self).dropping() == old(self).dropping(),
    {
        let mut r: Vec<Frame> = Vec::new();
        std::mem::swap(&mut r, &mut self.trace);
        assert(frames_view(self.trace@) =~= Seq::<FrameModel>::empty());
        r
    }

    /// Handles bytes from the game client. Relaying passes them on as they
    /// are. Otherwise the first message must be the game's 132-byte public
    /// key, answered with a fresh key of ours; once the channel is up, the
    /// bytes are decrypted with the send state handed to the game, framed
    /// and filtered, and what is kept is encrypted with the server's send
    /// state.
    pub fn process_game_data(&mut self, data: &[u8]) -> (r: Result<Vec<u8>, CipherError>)
        requires
            old(self).wf(),
        ensures
            final(self).wf(),
            final(self).relays() == old(self).relays(),
            final(self).rx_ring() == old(self).rx_ring(),
            old(self).relays() ==> (r matches Ok(v) && v@ == data@ && final(self).same_as(*old(self))),
            !old(self).relays() ==> match old(self).cipher() {
                CipherS::Uninit => {
                    &&& final(self).tx_ring() == old(self).tx_ring()
                    &&& final(self).dropping() == old(self).dropping()
                    &&& final(self).traced() == old(self).traced()
                    &&& if data@.len() != 132 {
                        r matches Err(CipherError::ExpectedClientHandshake) && final(self).cipher() is Uninit
                    } else if !public_key_accepted(
                        le_nat(data@.subrange(0, 128)),
                        le_nat(data@.subrange(128, 132)),
                    ) {
                        r matches Err(CipherError::Rsa(_)) && final(self).cipher() is Uninit
                    } else {
                        &&& r matches Ok(v) ==> (final(self).cipher() matches CipherS::ClientHandshakeReceived { my_key, .. }
                            && answers_with_key(my_key, v@))
                        &&& r matches Err(e) ==> e is Rsa && final(self).cipher() is Uninit
                    }
                },
                CipherS::ClientHandshakeReceived { .. } => r matches Err(
                    CipherError::UnexpectedClientMessage,
                ) && final(self).same_as(*old(self)),
                CipherS::EncryptedChannel { game_rx, game_tx, srv_rx, srv_tx } => {
                    let m = spec_on_packet(
                        PacketSource::Client,
                        pushed_stream(old(self).tx_ring(), apply(game_tx@, data@)),
                        old(self).dropping(),
                    );
                    &&& r matches Ok(v) && v@ == apply(srv_tx@, m.out)
                    &&& final(self).cipher() matches CipherS::EncryptedChannel {
                        game_rx: grx,
                        game_tx: gtx,
                        srv_rx: srx,
                        srv_tx: stx,
                    }
                    &&& grx@ == game_rx@ && srx@ == srv_rx@
                    &&& gtx@ == advance(game_tx@, data@.len()) && stx@ == advance(srv_tx@, m.out.len())
                    &&& ring_contents(final(self).tx_ring()) == m.rest
                    &&& ring_capacity(final(self).tx_ring()) == ring_capacity(old(self).tx_ring())
                    &&& final(self).dropping() == m.drop_all
                    &&& final(self).traced() == old(self).traced() + m.frames
                },
            },
    {
        if self.passthrough {
            return Ok(copy_range(data, 0, data.len()));
        }
        game_step(&mut self.cipher_state, &mut self.drop_packets, &mut self.tx_buf, &mut self.trace, data)
    }

    /// Handles bytes from the server. Relaying passes them on as they are.
    /// Otherwise the server's 640-byte key-exchange message is decrypted
    /// with our key, its states are kept and the game is sent fresh states
    /// of ours; once the channel is up, the bytes are decrypted with the
    /// server's receive state, framed and filtered, and what is kept is
    /// encrypted with the receive state handed to the game.
    pub fn process_server_data(&mut self, data: &[u8]) -> (r: Result<Vec<u8>, CipherError>)
        requires
            old(self).wf(),
        ensures
            final(self).wf(),
            final(self).relays() == old(self).relays(),
            final(self).tx_ring() == old(self).tx_ring(),
            old(self).relays() ==> (r matches Ok(v) && v@ == data@ && final(self).same_as(*old(self))),
            !old(self).relays() ==> match old(self).cipher() {
                CipherS::Uninit => r matches Err(CipherError::UnexpectedServerMessage)
                    && final(self).same_as(*old(self)),
                CipherS::ClientHandshakeReceived { my_key, .. } => {
                    &&& final(self).rx_ring() == old(self).rx_ring()
                    &&& final(self).dropping() == old(self).dropping()
                    &&& final(self).traced() == old(self).traced()
                    &&& if data@.len() != 640 {
                        r matches Err(CipherError::ExpectedServerHandshake) && final(self).same_as(*old(self))
                    } else if answer_accepted(my_key, data@) {
                        &&& r matches Ok(v) && v@ == boxes_message()
                        &&& final(self).cipher() matches CipherS::EncryptedChannel { game_rx, game_tx, srv_rx, srv_tx }
                        &&& answer_states_taken(my_key, data@, game_rx@, game_tx@, srv_rx@, srv_tx@)
                    } else {
                        answer_refusal(my_key, data@, r) && final(self).same_as(*old(self))
                    }
                },
                CipherS::EncryptedChannel { game_rx, game_tx, srv_rx, srv_tx } => {
                    let m = spec_on_packet(
                        PacketSource::Server,
                        pushed_stream(old(self).rx_ring(), apply(srv_rx@, data@)),
                        old(self).dropping(),
                    );
                    &&& r matches Ok(v) && v@ == apply(game_rx@, m.out)
                    &&& final(self).cipher() matches CipherS::EncryptedChannel {
                        game_rx: grx,
                        game_tx: gtx,
                        srv_rx: srx,
                        srv_tx: stx,
                    }
                    &&& gtx@ == game_tx@ && stx@ == srv_tx@
                    &&& grx@ == advance(game_rx@, m.out.len()) && srx@ == advance(srv_rx@, data@.len())
                    &&& ring_contents(final(self).rx_ring()) == m.rest
                    &&& ring_capacity(final(self).rx_ring()) == ring_capacity(old(self).rx_ring())
                    &&& final(self).dropping() == m.drop_all
                    &&& final(self).traced() == old(self).traced() + m.frames
                },
            },
    {
        if self.passthrough {
            return Ok(copy_range(data, 0, data.len()));
        }
        server_step(&mut self.cipher_state, &mut self.drop_packets, &mut self.rx_buf, &mut self.trace, data)
    }
}

} // verus!
