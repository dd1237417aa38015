use rqsrv::mitm::{Frame, PacketSource};
use rqsrv::protocol::{
    AuthRequest, CharacterMove, Connect, Coords, EnterWorldRequest, ExitRequest, Heartbeat2, HeartbeatClient, Packet,
    SendChatMessage, ShowEmotion, TimeSyncResponse,
};
use rqsrv::ring::ByteRing;
use rqsrv::rqode_binrw::{Op21, RBool, RString, RVec, Wire, F32, U16, U32, U64, U8};
use rqsrv::server_cli::{parse_chat_command, process_cli_command, ChatCli};
use rqsrv::server_conn::{process_client_data, write_packet, CipherState, ConnectionState};
use rqsrv::server_handler::{process_packet, PacketOrBlob};
use rqsrv::server_login::{chars, starter_pack};
use rqsrv::server_state::{
    ConnectionInfo, MessageForShard, MessageFromShard, MessageFromShardKind, State, StateError,
};
use rqsrv::server_world::ShardState;

const LOCATION: u32 = 25565;

fn no_info() -> ConnectionInfo {
    ConnectionInfo { session: None, character_id: None, shard_id: None }
}

fn auth(account: &str) -> AuthRequest {
    AuthRequest {
        pc_millis_shift: U32(1),
        pc_millis: U32(2),
        auth_type: U8(32),
        account_id: RString::from_text(account),
        unk0: RString::empty(),
        rdtsc: U64(77),
        sign_in_code: RString::empty(),
        unk2: RString::empty(),
        unk3: RBool(0),
        unk4: RBool(0),
        unk5: U32(0),
        unk6: RVec { data: Vec::new() },
        unk7: U32(0),
        unk8: U64(0),
        unk9: U16(0),
        unk10: RString::empty(),
        unk11: RString::empty(),
        unk12: RString::empty(),
        gateway: RString::from_text("classic"),
    }
}

fn time_sync(session: u64) -> TimeSyncResponse {
    TimeSyncResponse { xkey0: U32(9), rdtsc: U64(5), xkey1: U64(session) }
}

/// Logs `account` in and lists its characters; returns the session key.
fn login(state: &mut State, info: &mut ConnectionInfo, account: &str) -> u64 {
    let list = state.handle_auth_request(info, auth(account)).unwrap();
    let session = info.session.unwrap();
    assert_eq!(list.xkey1, U64(session));
    assert_eq!(list.rdtsc_echo, U64(77));
    assert_eq!(state.sessions.get(&session).map(|s| s.as_str()), Some(account));
    session
}

#[test]
fn login_flow_enters_world() {
    let mut state = State::new();
    let _shard = ShardState::new(LOCATION, &mut state);
    let mut info = no_info();
    let session = login(&mut state, &mut info, "nik");

    let list = state.handle_charlist_req(&mut info, time_sync(session)).unwrap();
    assert_eq!(list.xkey0, U32(9));
    assert_eq!(list.rdtsc_echo, U64(5));
    assert_eq!(list.chars.data.len(), 52);
    assert_eq!(list.chars.data[0].id, U32(6));
    assert!(list.chars.data[0].info.is_some());
    assert_eq!(list.chars.data[1].id, U32(0));
    assert!(state.chardata.contains_key(&6));

    let resp = state.handle_enter_world_req(&mut info, EnterWorldRequest { char_idx: U8(0) }).unwrap();
    assert_eq!(resp.unk.0, 0);
    assert_eq!(info.character_id, Some(6));
    assert_eq!(info.shard_id, Some(LOCATION));
    assert!(state.players.contains(&6));
    let last = state.outbox.last().unwrap();
    assert_eq!(last.shard, LOCATION);
    assert!(matches!(last.msg, MessageForShard::PlayerEnter { id: 6 }));
}

#[test]
fn enter_world_with_empty_slot() {
    let mut state = State::new();
    let mut info = no_info();
    let session = login(&mut state, &mut info, "sam");
    state.handle_charlist_req(&mut info, time_sync(session)).unwrap();
    let resp = state.handle_enter_world_req(&mut info, EnterWorldRequest { char_idx: U8(3) }).unwrap();
    assert_eq!(resp.unk.0, 1);
    assert_eq!(info.character_id, None);
}

#[test]
fn login_errors() {
    let mut state = State::new();
    let mut info = no_info();
    assert!(matches!(
        state.handle_enter_world_req(&mut info, EnterWorldRequest { char_idx: U8(0) }),
        Err(StateError::NoSessionYet)
    ));
    assert!(matches!(state.handle_charlist_req(&mut info, time_sync(42)), Err(StateError::NoSession(42))));
    let session = login(&mut state, &mut info, "bob");
    match state.handle_charlist_req(&mut info, time_sync(session)) {
        Err(StateError::NoUser(a)) => assert_eq!(a, "bob"),
        _ => panic!("expected an unknown user"),
    }
}

#[test]
fn entering_without_running_location() {
    let mut state = State::new();
    let mut info = no_info();
    let session = login(&mut state, &mut info, "lev");
    state.handle_charlist_req(&mut info, time_sync(session)).unwrap();
    let r = state.handle_enter_world_req(&mut info, EnterWorldRequest { char_idx: U8(0) });
    assert!(matches!(r, Err(StateError::NoSuchShard(LOCATION))));
    assert_eq!(info.character_id, Some(34));
}

#[test]
fn entering_before_loading_character() {
    let mut state = State::new();
    let mut info = no_info();
    login(&mut state, &mut info, "lev");
    let r = state.handle_enter_world_req(&mut info, EnterWorldRequest { char_idx: U8(0) });
    assert!(matches!(r, Err(StateError::CharacterNotLoaded(34))));
}

#[test]
fn loading_unknown_character() {
    let mut state = State::new();
    assert!(matches!(state.load_char_from_db(99), Err(StateError::NoSuchCharacter(99))));
    assert!(state.load_char_from_db(19).is_ok());
    assert_eq!(state.chardata.get(&19).unwrap().char.name, "Sam");
}

#[test]
fn starter_pack_and_demo_characters() {
    let items = starter_pack();
    let ids: Vec<u32> = items.iter().map(|i| i.id.0).collect();
    assert_eq!(ids, vec![5143, 309, 2244]);
    assert!(!chars().is_empty());
}

fn only_packet(v: &[PacketOrBlob]) -> &Packet {
    assert_eq!(v.len(), 1);
    match &v[0] {
        PacketOrBlob::Packet(p) => p,
        PacketOrBlob::Blob(_) => panic!("expected a packet"),
    }
}

#[test]
fn heartbeats_are_answered() {
    let mut state = State::new();
    let mut info = no_info();
    let hb = HeartbeatClient { id: U32(5), framerate: U32(60), unk0: U32(0), mb_ping: U32(0), unk: [U32(0); 2] };
    let r = process_packet(&mut state, &mut info, Packet::HeartbeatClient(hb)).unwrap();
    match only_packet(&r) {
        Packet::HeartbeatServer(h) => assert_eq!(h.id, U32(5)),
        _ => panic!("expected a server heartbeat"),
    }
    let r = process_packet(&mut state, &mut info, Packet::Heartbeat2(Heartbeat2 { client_uptime: U32(8) })).unwrap();
    assert_eq!(only_packet(&r), &Packet::Heartbeat2(Heartbeat2 { client_uptime: U32(8) }));
    let r = process_packet(&mut state, &mut info, Packet::Connect(Connect { pc_millis_shift: U32(0), pc_millis: U32(0) }))
        .unwrap();
    assert!(matches!(only_packet(&r), Packet::TimeSync(_)));
}

#[test]
fn chat_comes_back_from_server() {
    let mut state = State::new();
    let mut info = no_info();
    let m = SendChatMessage { chat_id: Op21(3), text: RString::from_text("hello") };
    let r = process_packet(&mut state, &mut info, Packet::SendChatMessage(m)).unwrap();
    match only_packet(&r) {
        Packet::ChatMessage(c) => {
            assert_eq!(c.chat_id, Op21(0));
            assert_eq!(c.text, RString::from_text("hello"));
            assert_eq!(c.name, RString::from_text("SRV"));
        },
        _ => panic!("expected a chat message"),
    }
}

#[test]
fn exit_is_answered_twice() {
    let mut state = State::new();
    let mut info = no_info();
    let r = process_packet(&mut state, &mut info, Packet::ExitRequest(ExitRequest { code: U32(2) })).unwrap();
    assert_eq!(r.len(), 2);
    assert!(matches!(&r[0], PacketOrBlob::Packet(Packet::ExitResponse(e)) if e.delay == U32(0)));
    assert!(matches!(&r[1], PacketOrBlob::Packet(Packet::ConnectionError(e)) if e.code == U32(100)));
}

#[test]
fn emote_commands() {
    let mut state = State::new();
    let mut info = no_info();
    let r = process_packet(&mut state, &mut info, Packet::ShowEmotion(ShowEmotion { emo: RString::from_text("loc 7") }))
        .unwrap();
    assert_eq!(r.len(), 2);
    assert!(matches!(&r[0], PacketOrBlob::Packet(Packet::SwitchLocation(s)) if s.location_id == U32(7)));
    assert!(matches!(&r[1], PacketOrBlob::Packet(Packet::PosCamera(c)) if c.movspeed == F32(0x41A0_0000)));
    let r = process_packet(&mut state, &mut info, Packet::ShowEmotion(ShowEmotion { emo: RString::from_text("wave") }))
        .unwrap();
    assert!(r.is_empty());
}

#[test]
fn moves_without_location_fail() {
    let mut state = State::new();
    let mut info = no_info();
    let mv = CharacterMove {
        coords: Coords { x: F32(0), y: F32(0) },
        flags: U16(0),
        direction: U16(0),
        dir2: None,
        unk4: None,
    };
    let r = process_packet(&mut state, &mut info, Packet::CharacterMove(mv));
    assert!(matches!(r, Err(StateError::NoShardId)));
}

#[test]
fn chat_command_grammar() {
    assert_eq!(parse_chat_command("loc 25565"), Some(ChatCli::Loc { id: 25565 }));
    assert_eq!(parse_chat_command("  spawnmob  467 100 "), Some(ChatCli::Spawnmob { id: 467, hp: 100 }));
    assert_eq!(parse_chat_command("give 309 1"), Some(ChatCli::Give { id: 309, quant: 1 }));
    assert_eq!(parse_chat_command("give -- 309 +1"), Some(ChatCli::Give { id: 309, quant: 1 }));
    assert_eq!(parse_chat_command("spawnmob 70000 1"), None);
    assert_eq!(parse_chat_command("loc"), None);
    assert_eq!(parse_chat_command("loc 1 2"), None);
    assert_eq!(parse_chat_command("loc -v 1"), None);
    assert_eq!(parse_chat_command("dance 1"), None);
    assert_eq!(parse_chat_command(""), None);
}

#[test]
fn chat_command_packets() {
    let mut out = Vec::new();
    assert!(process_cli_command("give 309 4", &mut out).is_some());
    match only_packet(&out) {
        Packet::ReceiveItem(r) => {
            assert_eq!(r.item.id, U32(309));
            assert_eq!(r.item.count.0, 4);
        },
        _ => panic!("expected a received item"),
    }
    let mut out = Vec::new();
    assert!(process_cli_command("spawnmob 5 9", &mut out).is_some());
    assert!(matches!(only_packet(&out), Packet::Entity(_)));
    let mut out = Vec::new();
    assert!(process_cli_command("nothing", &mut out).is_none());
    assert!(out.is_empty());
}

#[test]
fn written_packets_carry_their_size() {
    let mut out = vec![0xee];
    let p = PacketOrBlob::Packet(Packet::Heartbeat2(Heartbeat2 { client_uptime: U32(1) }));
    let (ptype, bytes) = write_packet(&mut out, &p);
    assert_eq!(out[0], 0xee);
    assert_eq!(u16::from_le_bytes([out[1], out[2]]) as usize, bytes.len() + 2);
    assert_eq!(&out[3..], &bytes[..]);
    assert_eq!(ptype, u16::from_le_bytes([bytes[0], bytes[1]]));
    let blob = PacketOrBlob::Blob(&[1, 2, 3]);
    let mut out = Vec::new();
    let (ptype, bytes) = write_packet(&mut out, &blob);
    assert_eq!(out, vec![5, 0, 1, 2, 3]);
    assert_eq!(ptype, 0x0201);
    assert_eq!(bytes, vec![1, 2, 3]);
}

#[test]
fn client_stream_is_answered_in_order() {
    let mut state = State::new();
    let mut info = no_info();
    let mut ring = ByteRing::new(1024);
    let mut trace: Vec<Frame> = Vec::new();
    let hb = Packet::Heartbeat2(Heartbeat2 { client_uptime: U32(3) });
    let mut body = Vec::new();
    hb.write(&mut body);
    let mut stream = Vec::new();
    stream.extend_from_slice(&((body.len() + 2) as u16).to_le_bytes());
    stream.extend_from_slice(&body);
    let twice = [stream.clone(), stream.clone()].concat();
    // Half of the first packet: nothing is answered yet.
    let out = process_client_data(&mut state, &mut ring, &mut info, &twice[..3], &mut trace);
    assert!(out.is_empty());
    let out = process_client_data(&mut state, &mut ring, &mut info, &twice[3..], &mut trace);
    assert_eq!(out, twice);
    assert_eq!(ring.occupied_len(), 0);
    // Each packet is traced, then its answer.
    let sources: Vec<PacketSource> = trace.iter().map(|f| f.source).collect();
    assert_eq!(sources, vec![PacketSource::Client, PacketSource::Server, PacketSource::Client, PacketSource::Server]);
    assert_eq!(trace[0].data, body);
}

#[test]
fn connection_needs_key_first() {
    let mut state = State::new();
    let mut conn = ConnectionState::new();
    let mut response = Vec::new();
    let mut trace: Vec<Frame> = Vec::new();
    assert!(!conn.on_client_bytes(&mut state, &mut response, &[1, 2, 3], &mut trace));
    assert!(matches!(conn.cipher, CipherState::Uninit));
    assert!(!conn.on_shard_packets(&mut response, vec![], &mut trace));
}

#[test]
fn connection_key_exchange() {
    let mut state = State::new();
    let mut conn = ConnectionState::new();
    let mut response = Vec::new();
    let mut trace: Vec<Frame> = Vec::new();
    // A 1024-bit odd modulus (all ones) with exponent 65537.
    let mut key = vec![0xffu8; 128];
    key.extend_from_slice(&[1, 0, 1, 0]);
    assert!(conn.on_client_bytes(&mut state, &mut response, &key, &mut trace));
    assert_eq!(response, vec![0u8; 640]);
    assert!(matches!(conn.cipher, CipherState::Encrypted { .. }));
    // Zero states give a zero keystream for the first byte, so a packet
    // from the location goes out as it is framed.
    let write = conn.on_shard_packets(&mut response, vec![Packet::Heartbeat2(Heartbeat2 { client_uptime: U32(0) })], &mut trace);
    assert!(write);
    assert!(!response.is_empty());
}

#[test]
fn location_updates() {
    let mut state = State::new();
    let mut shard = ShardState::new(LOCATION, &mut state);
    state.load_char_from_db(6).unwrap();
    state.load_char_from_db(34).unwrap();
    state.players.push(6);
    state.players.push(34);
    shard.on_msg(&state, MessageForShard::PlayerEnter { id: 6 });
    let first = shard.tick(&state);
    // The player gets its own data, then hears of itself moving: nothing.
    assert_eq!(first.len(), 1);
    assert_eq!(first[0].to, 6);
    assert!(matches!(first[0].msg.kind, MessageFromShardKind::PlayerLoaded { .. }));
    assert!(!shard.entities[0].spawned && !shard.entities[0].moved);

    shard.on_msg(&state, MessageForShard::PlayerEnter { id: 34 });
    let second = shard.tick(&state);
    // 34 gets its data and hears of 6; 6 hears 34 spawn; 6 hears 34 move.
    let to: Vec<u32> = second.iter().map(|o| o.to).collect();
    assert_eq!(to, vec![34, 34, 6, 6]);

    let pos = Coords { x: F32(0x3f80_0000), y: F32(0) };
    shard.on_msg(&state, MessageForShard::PlayerMove { id: 6, pos: pos.clone() });
    let third = shard.tick(&state);
    // Only the other player hears of the move.
    assert_eq!(third.len(), 1);
    assert_eq!(third[0].to, 34);
    assert!(matches!(third[0].msg.kind, MessageFromShardKind::EntityMove { id: 6, .. }));
    match &shard.entities[0].bundle {
        rqsrv::server_state::EntityBundle::Player(p) => assert_eq!(p.pos.0, pos),
        _ => panic!("expected a player"),
    }

    // A player without a loaded character does not appear.
    shard.on_msg(&state, MessageForShard::PlayerEnter { id: 19 });
    assert_eq!(shard.entities.len(), 2);
}

#[test]
fn location_messages_become_packets() {
    let state = State::new();
    let msg = MessageFromShard {
        shard_id: LOCATION,
        kind: MessageFromShardKind::EntityMove { id: 6, pos: Coords { x: F32(0), y: F32(0) } },
    };
    let packets = state.recv_from_shard(msg);
    assert_eq!(packets.len(), 1);
    assert!(matches!(packets[0], Packet::EntityMove(_)));
}
