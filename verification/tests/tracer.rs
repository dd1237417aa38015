use rqsrv::cipher::CipherError;
use rqsrv::mitm::{on_packet, Frame, Mitm, PacketSource};
use rqsrv::mitm_gui::{
    add_id, body_shown, format_id, header, header_style, parse_id, HeaderStyle, PacketEvent, PacketLog,
    Settings, CLEAR_COUNT, CLEAR_THRESHOLD,
};
use rqsrv::packet_view::{dissect, DissectionKind};
use rqsrv::protocol::PacketType;
use rqsrv::ptrace::{is_traced, ptrace};
use rqsrv::ring::ByteRing;

const SEP: &str = "--- --- --- --- --- --- --- --- --- --- --- --- --- ---\n";

fn event(id: u16, data: Vec<u8>, dropped: bool) -> PacketEvent {
    PacketEvent { packet: dissect(PacketSource::Server, id, &data, false), dropped }
}

#[test]
fn framing_passes_kept_and_drops_listed_packets() {
    let mut ring = ByteRing::new(64);
    let mut drop_all = false;
    let mut trace: Vec<Frame> = Vec::new();
    // kept: size 6, type 0x0001; dropped: size 4, type 0x0415
    let data = [6u8, 0, 1, 0, 0xaa, 0xbb, 4, 0, 0x15, 0x04];
    let out = on_packet(&mut drop_all, PacketSource::Client, &mut ring, &data, &mut trace);
    assert_eq!(out, vec![6, 0, 1, 0, 0xaa, 0xbb]);
    assert_eq!(trace.len(), 2);
    assert_eq!(trace[0].ptype, 1);
    assert_eq!(trace[0].data, vec![1, 0, 0xaa, 0xbb]);
    assert!(!trace[0].dropped);
    assert_eq!(trace[1].ptype, 0x415);
    assert!(trace[1].dropped);
    assert_eq!(ring.occupied_len(), 0);
    assert!(!drop_all);
}

#[test]
fn framing_keeps_incomplete_packet_for_later() {
    let mut ring = ByteRing::new(64);
    let mut drop_all = false;
    let mut trace: Vec<Frame> = Vec::new();
    let out = on_packet(&mut drop_all, PacketSource::Server, &mut ring, &[7, 0, 2, 0, 9], &mut trace);
    assert!(out.is_empty());
    assert!(trace.is_empty());
    assert_eq!(ring.occupied_len(), 5);
    let out = on_packet(&mut drop_all, PacketSource::Server, &mut ring, &[8, 7], &mut trace);
    assert_eq!(out, vec![7, 0, 2, 0, 9, 8, 7]);
    assert_eq!(trace.len(), 1);
    assert_eq!(ring.occupied_len(), 0);
}

#[test]
fn framing_stops_at_undersized_packet() {
    let mut ring = ByteRing::new(64);
    let mut drop_all = false;
    let mut trace: Vec<Frame> = Vec::new();
    let out = on_packet(&mut drop_all, PacketSource::Server, &mut ring, &[1, 0, 5, 0, 0, 0], &mut trace);
    assert!(out.is_empty());
    assert_eq!(ring.occupied_len(), 6);
}

#[test]
fn mitm_relay_passes_bytes_unchanged() {
    let mut m = Mitm::new(true);
    let data = [1u8, 2, 3, 4, 5];
    assert_eq!(m.process_game_data(&data).unwrap(), data.to_vec());
    assert_eq!(m.process_server_data(&data).unwrap(), data.to_vec());
    assert!(m.take_trace().is_empty());
}

#[test]
fn mitm_handshake_errors() {
    let mut m = Mitm::new(false);
    assert!(matches!(m.process_server_data(&[1, 2, 3]), Err(CipherError::UnexpectedServerMessage)));
    assert!(matches!(m.process_game_data(&[1, 2, 3]), Err(CipherError::ExpectedClientHandshake)));
}

#[test]
fn ptrace_ignores_heartbeats() {
    assert!(ptrace(PacketSource::Client, PacketType::HeartbeatClient.code(), &[0x46, 0]).is_none());
}

#[test]
fn ptrace_empty_unknown_packet() {
    let t = ptrace(PacketSource::Client, 0x1234, &[0x34, 0x12]).unwrap();
    assert_eq!(t, format!("{SEP}Client: packet 4660 (0x1234) ; Length 0\n"));
}

#[test]
fn ptrace_collapsed_packet() {
    let t = ptrace(PacketSource::Server, 0x148, &[0x48, 0x01, 1, 2, 3]).unwrap();
    assert_eq!(t, format!("{SEP}Server: packet 328 (0x148) GuildAvatar; Length 3\n"));
}

#[test]
fn ptrace_small_type_is_padded() {
    let t = ptrace(PacketSource::Server, 0x5, &[5, 0]).unwrap();
    assert_eq!(t, format!("{SEP}Server: packet 05 (0x5) ; Length 0\n"));
}

#[test]
fn dissect_unknown_empty_packet() {
    let v = dissect(PacketSource::Client, 0x1234, &[0x34, 0x12], false);
    assert_eq!(v.id, 0x1234);
    assert!(v.name.is_none());
    assert_eq!(v.length, 0);
    assert_eq!(v.kind, DissectionKind::Guessed);
    assert_eq!(v.text, "[]");
    assert!(!v.compressed);
    assert_eq!(v.format_log(), "Client: packet 0x1234 (4660) ;\n");
}

#[test]
fn dissect_names_known_packet() {
    let v = dissect(PacketSource::Server, 0x46, &[0x46, 0], true);
    assert_eq!(v.name.as_deref(), Some("HeartbeatClient"));
    assert!(v.pretty);
}

#[test]
fn redissect_switches_layout() {
    let mut v = dissect(PacketSource::Client, 0x1234, &[0x34, 0x12, 0x04, 1, 0, 0, 0], false);
    assert_eq!(v.kind, DissectionKind::Guessed);
    let plain = v.text.clone();
    v.redissect(true);
    assert!(v.pretty);
    assert_eq!(v.kind, DissectionKind::Guessed);
    assert_ne!(v.text, plain);
}

#[test]
fn settings_contains_on_sorted_list() {
    let list = [1u16, 5, 9, 200];
    assert!(Settings::contains(&list, 9));
    assert!(Settings::contains(&list, 1));
    assert!(Settings::contains(&list, 200));
    assert!(!Settings::contains(&list, 6));
    assert!(!Settings::contains(&[], 6));
}

#[test]
fn settings_normalize_sorts_and_dedups() {
    let mut list = vec![9u16, 1, 9, 5, 1];
    Settings::normalize(&mut list);
    assert_eq!(list, vec![1, 5, 9]);
    let again = list.clone();
    Settings::normalize(&mut list);
    assert_eq!(list, again);
}

#[test]
fn settings_default_lists() {
    let s = Settings::default();
    assert_eq!(s.collapse, vec![PacketType::GuildAvatar.code(), PacketType::ServerVars.code()]);
    assert!(s.highlight.is_empty());
    assert!(s.drop.is_empty());
    assert!(s.mask.is_empty());
    assert_eq!(s.hide.len(), 2);
    assert!(!s.paused);
    assert!(!s.should_show(PacketType::HeartbeatClient.code()));
    assert!(!s.should_show(PacketType::EntityMove.code()));
    assert!(s.should_show(PacketType::ChatMessage.code()));
    assert!(!s.should_drop(PacketType::ChatMessage.code()));
}

#[test]
fn settings_mask_and_drop_lists() {
    let mut s = Settings::default();
    s.mask.push((vec![7, 8], false));
    assert!(s.should_show(3));
    s.mask[0].1 = true;
    assert!(!s.should_show(3));
    assert!(s.should_show(8));
    s.drop.push((vec![3], false));
    assert!(!s.should_drop(3));
    s.drop[0].1 = true;
    assert!(s.should_drop(3));
}

#[test]
fn settings_normalize_all_keeps_flags() {
    let mut s = Settings::default();
    s.collapse = vec![4, 2, 4];
    s.drop.push((vec![3, 1, 3], true));
    s.normalize_all();
    assert_eq!(s.collapse, vec![2, 4]);
    assert_eq!(s.drop, vec![(vec![1, 3], true)]);
    assert_eq!(s.hide.len(), 2);
    assert!(s.hide[0].1 && s.hide[1].1);
}

#[test]
fn parse_id_forms() {
    assert_eq!(parse_id("123"), Ok(123));
    assert_eq!(parse_id("  0x1F \t"), Ok(31));
    assert_eq!(parse_id("0XfF"), Ok(255));
    assert_eq!(parse_id("+7"), Ok(7));
    assert_eq!(parse_id("65535"), Ok(65535));
    assert_eq!(parse_id("65536"), Err(()));
    assert_eq!(parse_id("0x10000"), Err(()));
    assert_eq!(parse_id(""), Err(()));
    assert_eq!(parse_id("0x"), Err(()));
    assert_eq!(parse_id("-1"), Err(()));
    assert_eq!(parse_id("12a"), Err(()));
    assert_eq!(parse_id("1 2"), Err(()));
}

#[test]
fn format_id_labels() {
    assert_eq!(format_id(0x4e), "ChatMessage (0x4E)");
    assert_eq!(format_id(0x1234), "UNKNOWN (0x1234)");
}

#[test]
fn add_id_updates_list_and_input() {
    let mut input = String::from(" 0x10 ");
    let mut list = vec![20u16, 3];
    add_id(&mut input, &mut list);
    assert_eq!(list, vec![3, 16, 20]);
    assert!(input.is_empty());
    let mut bad = String::from("zz");
    add_id(&mut bad, &mut list);
    assert_eq!(bad, "zz");
    assert_eq!(list, vec![3, 16, 20]);
}

#[test]
fn header_line_of_packets() {
    let e = event(0x1234, vec![0x34, 0x12, 1, 2, 3], true);
    assert_eq!(header(&e), "[Server] packet 0x1234 (4660) 3 bytes DROPPED");
    let e = event(0x46, vec![0x46, 0], false);
    assert_eq!(header(&e), "[Server] HeartbeatClient 0x46 (70) 0 bytes");
}

#[test]
fn header_styles_by_precedence() {
    let mut s = Settings::default();
    s.highlight = vec![0x1234];
    assert_eq!(header_style(&s, &event(0x1234, vec![0x34, 0x12], true)), HeaderStyle::Dropped);
    assert_eq!(header_style(&s, &event(0x1234, vec![0x34, 0x12], false)), HeaderStyle::Highlighted);
    s.normalize_all();
    let collapsed = PacketType::GuildAvatar.code();
    let e = event(collapsed, vec![0x48, 0x01], false);
    assert_eq!(header_style(&s, &e), HeaderStyle::Collapsed);
    assert_eq!(header_style(&s, &event(0x1235, vec![0x35, 0x12], false)), HeaderStyle::Plain);
}

#[test]
fn body_shown_rules() {
    let mut s = Settings::default();
    s.normalize_all();
    assert!(!body_shown(&s, &event(0x1234, vec![0x34, 0x12], false)));
    assert!(body_shown(&s, &event(0x1234, vec![0x34, 0x12, 0], false)));
    let collapsed = PacketType::GuildAvatar.code();
    assert!(!body_shown(&s, &event(collapsed, vec![0x48, 0x01, 0, 0], false)));
    let mut e = event(collapsed, vec![0x48, 0x01, 0, 0], false);
    e.packet.pretty = true;
    assert!(body_shown(&s, &e));
}

#[test]
fn packet_log_lets_go_of_oldest() {
    let mut log = PacketLog::new();
    for k in 0..CLEAR_THRESHOLD {
        log.receive(event(k as u16, vec![0, 0], false), false);
    }
    assert_eq!(log.packets.len(), CLEAR_THRESHOLD);
    log.receive(event(0xffff, vec![0, 0], false), false);
    assert_eq!(log.packets.len(), CLEAR_THRESHOLD + 1 - CLEAR_COUNT);
    assert_eq!(log.packets[0].packet.id, CLEAR_COUNT as u16);
    assert_eq!(log.packets[log.packets.len() - 1].packet.id, 0xffff);
}

#[test]
fn packet_log_paused_and_clear() {
    let mut log = PacketLog::new();
    log.receive(event(1, vec![1, 0], false), true);
    assert!(log.packets.is_empty());
    log.receive(event(1, vec![1, 0], false), false);
    assert_eq!(log.packets.len(), 1);
    log.clear();
    assert!(log.packets.is_empty());
}

#[test]
fn packet_log_copy_all_shown_only() {
    let s = Settings::default();
    let mut log = PacketLog::new();
    log.receive(event(0x1234, vec![0x34, 0x12], false), false);
    log.receive(event(0x46, vec![0x46, 0], false), false);
    let text = log.copy_all(&s);
    assert_eq!(text, format!("\n{SEP}Server: packet 0x1234 (4660) ;\n"));
}

#[test]
fn format_log_holds_hex_dump_of_body() {
    let v = dissect(PacketSource::Server, 0x1234, &[0x34, 0x12, 0x04, 1, 0, 0, 0], false);
    assert_eq!(v.kind, DissectionKind::Guessed);
    let log = v.format_log();
    assert!(log.starts_with("Server: packet 0x1234 (4660) ;\n"));
    assert!(log.contains("Length: 5"));
    assert!(log.contains("04 01 00 00"));
    assert!(log.ends_with(&v.text));
}

#[test]
fn mitm_answers_game_key_with_fresh_key() {
    let mut m = Mitm::new(false);
    let mut key = vec![0xffu8; 128];
    key.extend_from_slice(&[1, 0, 1, 0]);
    let reply = m.process_game_data(&key).unwrap();
    assert_eq!(reply.len(), 132);
    assert_eq!(reply[127..], [0, 1, 0, 1, 0]);
    assert_ne!(&reply[..127], &key[..127]);
    // The key exchange is under way: more game bytes are refused.
    assert!(matches!(m.process_game_data(&key), Err(CipherError::UnexpectedClientMessage)));
    assert!(matches!(m.process_server_data(&[0u8; 10]), Err(CipherError::ExpectedServerHandshake)));
}

#[test]
fn parse_id_reads_back_printed_ids() {
    for id in [0u16, 9, 10, 255, 0x1234, 65535] {
        assert_eq!(parse_id(&format!("{id:#X}")), Ok(id));
        assert_eq!(parse_id(&id.to_string()), Ok(id));
    }
}

#[test]
fn normalize_all_keeps_what_is_dropped_and_shown() {
    let mut s = Settings::default();
    s.mask.push((vec![300, 7, 7, 2], true));
    s.drop.push((vec![9, 3, 9], true));
    s.hide.push((vec![8, 1], false));
    let before = s.clone();
    s.normalize_all();
    for id in 0..400u16 {
        assert_eq!(s.should_show(id), before.should_show(id));
        assert_eq!(s.should_drop(id), before.should_drop(id));
    }
}

#[test]
fn untraced_types_need_no_body() {
    // Heartbeats are not traced, whatever their length.
    assert!(!is_traced(0x46));
    assert_eq!(ptrace(PacketSource::Client, 0x46, &[]), None);
    assert!(is_traced(0x148));
    assert!(is_traced(0x7777));
}
