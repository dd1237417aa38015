//! Request handling of the game server: the answer to each client packet.
use vstd::prelude::*;
use crate::protocol::{
    AuthRequest, CharList, ChatMessage, ChatMessageView, ConnectionError, ConnectionErrorView, EnterWorldResponse,
    ExitResponse, ExitResponseView, Heartbeat2, Heartbeat2View, HeartbeatServer, Packet,
    PacketModel, ServerList, TimeSync,
};
use crate::rqode_binrw::{Op21, RString, U32, U64};
use crate::server_cli::{command_packets, process_cli_command, spec_chat_command};
use crate::server_login::{auth_outcome, charlist_outcome, enter_world_outcome};
use crate::server_state::{ConnectionInfo, State, StateError, shard_packet_outcome};
use crate::text::strip_nul;

verus! {

/// What the server sends: a packet, or raw bytes.
pub enum PacketOrBlob {
    Packet(Packet),
    Blob(&'static [u8]),
}

/// Mathematical form of [`PacketOrBlob`].
pub enum PacketOrBlobModel {
    Packet(PacketModel),
    Blob(Seq<u8>),
}

impl View for PacketOrBlob {
    type V = PacketOrBlobModel;

    open spec fn view(&self) -> PacketOrBlobModel {
        match self {
            PacketOrBlob::Packet(p) => PacketOrBlobModel::Packet(p@),
            PacketOrBlob::Blob(b) => PacketOrBlobModel::Blob(b@),
        }
    }
}

/// The views of a list of outgoing items.
pub open spec fn packets_view(v: Seq<PacketOrBlob>) -> Seq<PacketOrBlobModel> {
    v.map_values(|p: PacketOrBlob| p@)
}

/// A single packet as the answer.
pub open spec fn reply(p: PacketModel) -> Seq<PacketOrBlobModel> {
    seq![PacketOrBlobModel::Packet(p)]
}

/// The answer carries the server list, or the handler's error.
pub open spec fn answers_server_list(r: Result<Vec<PacketOrBlob>, StateError>, hr: Result<ServerList, StateError>) -> bool {
    match hr {
        Ok(l) => r matches Ok(v) && packets_view(v@) == reply(PacketModel::ServerList(l@)),
        Err(e) => r == Err::<Vec<PacketOrBlob>, StateError>(e),
    }
}

/// The answer carries the character list, or the handler's error.
pub open spec fn answers_char_list(r: Result<Vec<PacketOrBlob>, StateError>, hr: Result<CharList, StateError>) -> bool {
    match hr {
        Ok(l) => r matches Ok(v) && packets_view(v@) == reply(PacketModel::CharList(l@)),
        Err(e) => r == Err::<Vec<PacketOrBlob>, StateError>(e),
    }
}

/// The answer carries the enter-world response, or the handler's error.
pub open spec fn answers_enter_world(r: Result<Vec<PacketOrBlob>, StateError>, hr: Result<EnterWorldResponse, StateError>) -> bool {
    match hr {
        Ok(l) => r matches Ok(v) && packets_view(v@) == reply(PacketModel::EnterWorldResponse(l@)),
        Err(e) => r == Err::<Vec<PacketOrBlob>, StateError>(e),
    }
}

/// The answer is empty, or the error of passing the packet on.
pub open spec fn answers_nothing(r: Result<Vec<PacketOrBlob>, StateError>, hr: Result<(), StateError>) -> bool {
    match hr {
        Ok(()) => r matches Ok(v) && v@.len() == 0,
        Err(e) => r == Err::<Vec<PacketOrBlob>, StateError>(e),
    }
}

fn one(p: Packet) -> (r: Vec<PacketOrBlob>)
    ensures
        packets_view(r@) == reply(p@),
        r@.len() == 1,
        r@[0] is Packet,
{
    let mut v: Vec<PacketOrBlob> = Vec::new();
    v.push(PacketOrBlob::Packet(p));
    assert(packets_view(v@) =~= reply(p@));
    v
}

/// Packets that are answered without the handlers: heartbeats, a
/// connect, an item move, chat, an emote, an exit and a close.
pub open spec fn answered_locally(p: Packet) -> bool {
    ||| p is Connect
    ||| p is HeartbeatClient
    ||| p is Heartbeat2
    ||| p is MoveItemRequest
    ||| p is SendChatMessage
    ||| p is ShowEmotion
    ||| p is ExitRequest
    ||| p is ConnectionClose2
}

/// A single time-sync packet (its time is the clock's).
pub open spec fn is_time_sync(v: Seq<PacketOrBlobModel>) -> bool {
    v.len() == 1 && v[0] matches PacketOrBlobModel::Packet(PacketModel::TimeSync(_))
}

/// A single server heartbeat echoing `id` (its time is the uptime).
pub open spec fn is_heartbeat_reply(v: Seq<PacketOrBlobModel>, id: U32) -> bool {
    &&& v.len() == 1
    &&& v[0] matches PacketOrBlobModel::Packet(PacketModel::HeartbeatServer(hs))
    &&& hs.id == id
}

/// Packets that go to the player's location.
pub open spec fn passed_on(p: Packet) -> bool {
    &&& !answered_locally(p)
    &&& !(p is AuthRequest)
    &&& !(p is TimeSyncResponse)
    &&& !(p is EnterWorldRequest)
}

fn answer_login(state: &mut State, info: &mut ConnectionInfo, a: AuthRequest) -> (r: Result<Vec<PacketOrBlob>, StateError>)
    ensures
        exists|hr: Result<ServerList, StateError>|
            #[trigger] auth_outcome(*old(state), *final(state), *old(info), *final(info), a, hr)
                && answers_server_list(r, hr),
        r matches Ok(v) ==> forall|k: int| 0 <= k < v@.len() ==> (#[trigger] v@[k]) is Packet,
{
    let hr = state.handle_auth_request(info, a);
    match hr {
        Ok(l) => Ok(one(Packet::ServerList(l))),
        Err(e) => Err(e),
    }
}

/// What answering a client packet does to the server state and the
/// connection, and the answer it gives (see [`process_packet`]).
#[verifier::opaque]
pub open spec fn packet_outcome(s0: State, s1: State, i0: ConnectionInfo, i1: ConnectionInfo, p: Packet, r: Result<Vec<PacketOrBlob>, StateError>) -> bool {
    &&& (p matches Packet::AuthRequest(a) ==> exists|hr: Result<ServerList, StateError>|
        #[trigger] auth_outcome(s0, s1, i0, i1, a, hr)
            && answers_server_list(r, hr))
    &&& (p matches Packet::TimeSyncResponse(t) ==> exists|hr: Result<CharList, StateError>|
        #[trigger] charlist_outcome(s0, s1, i0, i1, t, hr)
            && answers_char_list(r, hr))
    &&& (p matches Packet::EnterWorldRequest(e) ==> exists|hr: Result<EnterWorldResponse, StateError>|
        #[trigger] enter_world_outcome(s0, s1, i0, i1, e, hr)
            && answers_enter_world(r, hr))
    &&& (answered_locally(p) ==> s1 == s0 && i1 == i0)
    &&& (p is Connect ==> (r matches Ok(v) && is_time_sync(packets_view(v@))))
    &&& (p matches Packet::HeartbeatClient(h) ==> (r matches Ok(v) && is_heartbeat_reply(packets_view(v@), h.id)))
    &&& (p matches Packet::Heartbeat2(h) ==> r matches Ok(v) && packets_view(v@) == reply(
        PacketModel::Heartbeat2(Heartbeat2View { client_uptime: h.client_uptime }),
    ))
    &&& (p matches Packet::MoveItemRequest(m) ==> r matches Ok(v) && packets_view(v@) == reply(
        PacketModel::MoveItemResponse(m@),
    ))
    &&& (p matches Packet::SendChatMessage(m) ==> r matches Ok(v) && packets_view(v@) == reply(
        PacketModel::ChatMessage(ChatMessageView { chat_id: Op21(0), text: m.text@, name: "SRV"@.push('\0') }),
    ))
    &&& (p matches Packet::ShowEmotion(e) ==> r matches Ok(v) && packets_view(v@) == match spec_chat_command(
        strip_nul(e.emo@),
    ) {
        Some(c) => command_packets(c),
        None => Seq::empty(),
    })
    &&& (p is ExitRequest ==> (r matches Ok(v) && packets_view(v@) == seq![
        PacketOrBlobModel::Packet(PacketModel::ExitResponse(ExitResponseView { delay: U32(0) })),
        PacketOrBlobModel::Packet(PacketModel::ConnectionError(ConnectionErrorView { code: U32(100) })),
    ]))
    &&& (p is ConnectionClose2 ==> (r matches Ok(v) && v@.len() == 0))
    &&& (passed_on(p) ==> exists|hr: Result<(), StateError>|
        #[trigger] shard_packet_outcome(s0, s1, i0, i1, p, hr)
            && answers_nothing(r, hr))
}

/// Answers a packet from the game client. Login, character list and
/// entering the world go to their handlers; heartbeats are answered (the
/// server's with its uptime); an item move is confirmed; a chat message
/// comes back from "SRV"; an emote is read as a chat command; an exit is
/// answered with the exit and a connection-error code 100; a close is not
/// answered; every other packet goes to the player's location.
pub fn process_packet(state: &mut State, info: &mut ConnectionInfo, p: Packet) -> (r: Result<Vec<PacketOrBlob>, StateError>)
    ensures
        packet_outcome(*old(state), *final(state), *old(info), *final(info), p, r),
        r matches Ok(v) ==> forall|k: int| 0 <= k < v@.len() ==> (#[trigger] v@[k]) is Packet,
{
    proof {
        reveal(packet_outcome);
    }
    match p {
        Packet::AuthRequest(a) => answer_login(state, info, a),
        Packet::Connect(_) => {
            let t = state.timestamp();
            Ok(one(Packet::TimeSync(TimeSync { unixtime: U64(t) })))
        },
        Packet::TimeSyncResponse(t) => {
            let hr = state.handle_charlist_req(info, t);
            match hr {
                Ok(l) => Ok(one(Packet::CharList(l))),
                Err(e) => Err(e),
            }
        },
        Packet::EnterWorldRequest(e) => {
            let hr = state.handle_enter_world_req(info, e);
            match hr {
                Ok(l) => Ok(one(Packet::EnterWorldResponse(l))),
                Err(e) => Err(e),
            }
        },
        Packet::HeartbeatClient(h) => {
            let up = state.uptime();
            Ok(one(Packet::HeartbeatServer(HeartbeatServer { id: h.id, time: U32(up) })))
        },
        Packet::Heartbeat2(h) => Ok(one(Packet::Heartbeat2(Heartbeat2 { client_uptime: h.client_uptime }))),
        Packet::MoveItemRequest(m) => Ok(one(Packet::MoveItemResponse(m))),
        Packet::SendChatMessage(m) => {
            proof {
                reveal_strlit("SRV");
            }
            Ok(one(Packet::ChatMessage(ChatMessage { chat_id: Op21(0), text: m.text, name: RString::from_text("SRV") })))
        },
        Packet::ShowEmotion(e) => {
            let mut out: Vec<PacketOrBlob> = Vec::new();
            let text = e.emo.into_string();
            let _ = process_cli_command(text.as_str(), &mut out);
            assert(packets_view(out@) =~= match spec_chat_command(text@) {
                Some(c) => command_packets(c),
                None => Seq::<PacketOrBlobModel>::empty(),
            });
            Ok(out)
        },
        Packet::ExitRequest(_) => {
            let mut out: Vec<PacketOrBlob> = Vec::new();
            out.push(PacketOrBlob::Packet(Packet::ExitResponse(ExitResponse { delay: U32(0) })));
            out.push(PacketOrBlob::Packet(Packet::ConnectionError(ConnectionError { code: U32(100) })));
            assert(packets_view(out@) =~= seq![
                PacketOrBlobModel::Packet(PacketModel::ExitResponse(ExitResponseView { delay: U32(0) })),
                PacketOrBlobModel::Packet(PacketModel::ConnectionError(ConnectionErrorView { code: U32(100) })),
            ]);
            Ok(out)
        },
        Packet::ConnectionClose2 => Ok(Vec::new()),
        other => {
            let hr = state.send_packet_to_shard(info, other);
            match hr {
                Ok(()) => Ok(Vec::new()),
                Err(e) => Err(e),
            }
        },
    }
}

} // verus!
