use rqsrv::dump::{dump_text, list_string, push_bin_error};
use rqsrv::protocol::{Coords, Packet, Heartbeat2};
use rqsrv::rqode_binrw::{BinError, RString, RVec, F32, U16, U32};

#[test]
fn wrapped_values() {
    assert_eq!(dump_text(&U16(5), false, 0), "U16(5)");
    assert_eq!(dump_text(&U16(5), true, 0), "U16(\n    5,\n)");
}

#[test]
fn records_on_one_line_and_over_lines() {
    let c = Coords { x: F32(0), y: F32(1) };
    assert_eq!(dump_text(&c, false, 0), "Coords { x: F32(0), y: F32(1) }");
    assert_eq!(
        dump_text(&c, true, 0),
        "Coords {\n    x: F32(\n        0,\n    ),\n    y: F32(\n        1,\n    ),\n}"
    );
}

#[test]
fn lists_and_empty_lists() {
    let v = RVec { data: vec![U16(1), U16(2)] };
    assert_eq!(dump_text(&v, false, 0), "RVec { data: [U16(1), U16(2)] }");
    let e: RVec<U16> = RVec { data: vec![] };
    assert_eq!(dump_text(&e, false, 0), "RVec { data: [] }");
    assert_eq!(list_string(&[1u8, 2, 3], false, 0), "[1, 2, 3]");
    assert_eq!(list_string::<u8>(&[], true, 0), "[]");
}

#[test]
fn quoted_text_is_escaped() {
    let s = RString::from_text("a\"b\\c\nd");
    assert_eq!(dump_text(&s, false, 0), "RString { data: \"a\\\"b\\\\c\\nd\\0\" }");
}

#[test]
fn packets_and_errors() {
    let p = Packet::Heartbeat2(Heartbeat2 { client_uptime: U32(7) });
    assert_eq!(dump_text(&p, false, 0), "Heartbeat2(Heartbeat2 { client_uptime: U32(7) })");
    assert_eq!(dump_text(&Packet::ConnectionClose2, false, 0), "ConnectionClose2");
    let mut s = String::new();
    push_bin_error(&mut s, BinError::TrailingBytes(3), false);
    assert_eq!(s, "TrailingBytes(3)");
    let mut s = String::new();
    push_bin_error(&mut s, BinError::Eof, true);
    assert_eq!(s, "Eof");
}
