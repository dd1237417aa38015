use std::io::Write;

use rqsrv::fmt_num::{push_dec, push_dec2, push_hex, push_hex_lower};
use rqsrv::le::{read_le16, read_le32, read_le64, write_le16, write_le32, write_le64};
use rqsrv::rqode::{DataElement, DataElementComposite, ParseError, RQParser};
use rqsrv::rqode_binrw::{
    read_checked, read_guess_all, read_partial, zlib_decompress, BinError, RBytes, RString, RVec, RZlib, Wire,
    U16, U32,
};
use rqsrv::text::{copy_range, drop_trailing_nul, str_ends_with_char, string_from_utf8, vec_of_zeros};

#[test]
fn le_round_trips() {
    let mut out = Vec::new();
    write_le16(&mut out, 0x1234);
    write_le32(&mut out, 0xdeadbeef);
    write_le64(&mut out, 0x0102030405060708);
    assert_eq!(out[..2], [0x34, 0x12]);
    assert_eq!(read_le16(&out, 0), 0x1234);
    assert_eq!(read_le32(&out, 2), 0xdeadbeef);
    assert_eq!(read_le64(&out, 6), 0x0102030405060708);
}

#[test]
fn number_text() {
    let mut s = String::new();
    push_dec(&mut s, 0);
    s.push(' ');
    push_dec(&mut s, 4660);
    s.push(' ');
    push_hex(&mut s, 0xab1);
    s.push(' ');
    push_hex_lower(&mut s, 0xab1);
    s.push(' ');
    push_dec2(&mut s, 7);
    s.push(' ');
    push_dec2(&mut s, 70);
    assert_eq!(s, "0 4660 0xAB1 0xab1 07 70");
}

#[test]
fn text_helpers() {
    assert_eq!(string_from_utf8(vec![0x68, 0x69]), Ok(String::from("hi")));
    assert_eq!(string_from_utf8(vec![0xff]), Err(vec![0xff]));
    assert!(str_ends_with_char("abc\0", '\0'));
    assert!(!str_ends_with_char("", '\0'));
    let mut s = String::from("ab\0");
    drop_trailing_nul(&mut s);
    assert_eq!(s, "ab");
    drop_trailing_nul(&mut s);
    assert_eq!(s, "ab");
    assert_eq!(vec_of_zeros(3), vec![0, 0, 0]);
    assert_eq!(copy_range(&[1, 2, 3, 4], 1, 3), vec![2, 3]);
}

#[test]
fn parser_reads_each_element_kind() {
    let data = vec![
        0x01, 7, 0x02, 0x34, 0x12, 0x03, 1, 0x04, 1, 0, 0, 0, 0x08, 1, 0, 0, 0, 0, 0, 0, 0, 0x05, 2, 0, 0, 0,
        0x21, 3, 0, 0, 0, 0x36, 4, 0, 0, 0, 5, 0,
    ];
    let mut p = RQParser::new(data);
    assert_eq!(p.read_next_element().unwrap(), DataElement::U8(7));
    assert_eq!(p.read_next_element().unwrap(), DataElement::U16(0x1234));
    assert_eq!(p.read_next_element().unwrap(), DataElement::Bool(1));
    assert_eq!(p.read_next_element().unwrap(), DataElement::U32(1));
    assert_eq!(p.read_next_element().unwrap(), DataElement::U64(1));
    assert_eq!(p.read_next_element().unwrap(), DataElement::Op05(2));
    assert_eq!(p.read_next_element().unwrap(), DataElement::Op21(3));
    assert_eq!(p.read_next_element().unwrap(), DataElement::Op36(4, 5));
    assert!(!p.has_data());
    assert_eq!(p.pos(), 38);
}

#[test]
fn parser_errors() {
    let mut p = RQParser::new(vec![0x09, 0]);
    assert!(matches!(p.read_next_element(), Err(ParseError::UnknownOpcode(9, 1))));
    let mut p = RQParser::new(vec![0x04, 1]);
    assert!(matches!(p.read_next_element(), Err(ParseError::IO)));
    let mut p = RQParser::new(vec![0x01, 5]);
    assert!(matches!(p.read_byte_array(), Err(ParseError::InvalidByteArrayStart(DataElement::U8(5)))));
    let mut p = RQParser::new(vec![0x02, 1, 0, 0xff]);
    assert!(matches!(p.read_string(), Err(ParseError::Utf8(_))));
}

#[test]
fn parser_reads_strings() {
    let mut p = RQParser::new(vec![0x02, 3, 0, b'h', b'i', 0]);
    assert_eq!(p.read_string().unwrap(), "hi");
    let mut p = RQParser::new(vec![0x02, 2, 0, 0xab, 0xcd]);
    assert_eq!(p.read_byte_array().unwrap(), vec![0xab, 0xcd]);
}

#[test]
fn parser_guesses_strings_and_numbers() {
    let data = vec![0x02, 3, 0, b'o', b'k', 0, 0x04, 9, 0, 0, 0, 0x02, 0, 0];
    let mut p = RQParser::new(data);
    let v = p.read_guess_all().unwrap();
    assert_eq!(
        v,
        vec![
            DataElementComposite::String(String::from("ok")),
            DataElementComposite::U32(9),
            DataElementComposite::U16(0),
        ]
    );
}

#[test]
fn parser_guesses_plain_u16_before_unknown_byte() {
    // A u16 followed by a byte that is no opcode is a plain number.
    let mut p = RQParser::new(vec![0x02, 1, 0, 0x77, 0x99]);
    assert_eq!(p.read_guess().unwrap(), DataElementComposite::U16(1));
    assert_eq!(p.pos(), 3);
}

#[test]
fn typed_scalars_round_trip() {
    let mut out = Vec::new();
    U16(0x1234).write(&mut out);
    U32(7).write(&mut out);
    assert_eq!(out, vec![0x02, 0x34, 0x12, 0x04, 7, 0, 0, 0]);
    let (a, q) = read_partial::<U16>(&out).unwrap();
    assert_eq!((a, q), (U16(0x1234), 3));
    assert_eq!(read_checked::<U32>(&out[3..]), Ok(U32(7)));
}

#[test]
fn typed_errors() {
    assert_eq!(read_partial::<U16>(&[]), Err(BinError::Eof));
    assert_eq!(read_partial::<U16>(&[0x04, 0, 0]), Err(BinError::BadMagic(0x04)));
    assert_eq!(read_partial::<U16>(&[0x02, 0]), Err(BinError::Eof));
    assert_eq!(read_checked::<U16>(&[0x02, 1, 0, 9]), Err(BinError::TrailingBytes(3)));
    assert_eq!(read_partial::<RString>(&[0x02, 1, 0, 0xff]), Err(BinError::Utf8));
}

#[test]
fn strings_round_trip() {
    let s = RString::from_text("héllo");
    let mut out = Vec::new();
    s.write(&mut out);
    assert_eq!(out[..3], [0x02, 7, 0]);
    let (back, q) = read_partial::<RString>(&out).unwrap();
    assert_eq!(q, out.len());
    assert_eq!(back.clone().into_string(), "héllo");
    assert_eq!(back, s);
    assert_eq!(RString::empty().into_string(), "");
}

#[test]
fn vectors_round_trip() {
    let v = RVec { data: vec![U16(1), U16(2)] };
    let mut out = Vec::new();
    v.write(&mut out);
    assert_eq!(out, vec![0x02, 2, 0, 0x02, 1, 0, 0x02, 2, 0]);
    let (back, q) = read_partial::<RVec<U16>>(&out).unwrap();
    assert_eq!(back.data, vec![U16(1), U16(2)]);
    assert_eq!(q, 9);
}

#[test]
fn bytes_round_trip() {
    let b = RBytes::from_slice(&[1, 2, 3]);
    let mut out = Vec::new();
    b.write(&mut out);
    assert_eq!(out, vec![0x02, 3, 0, 1, 2, 3]);
    assert_eq!(read_checked::<RBytes>(&out).unwrap().data, vec![1, 2, 3]);
}

fn zlib(data: &[u8]) -> Vec<u8> {
    let mut e = flate2::write::ZlibEncoder::new(Vec::new(), flate2::Compression::default());
    e.write_all(data).unwrap();
    e.finish().unwrap()
}

#[test]
fn zlib_blobs_decompress() {
    let z = zlib(b"hello hello hello");
    assert_eq!(zlib_decompress(&z).unwrap(), b"hello hello hello".to_vec());
    assert_eq!(zlib_decompress(&[1, 2, 3]), Err(BinError::Decompress));
    // A blob: u16 length element, a 2-byte size, then the stream.
    let mut blob = vec![0x02];
    let n = (z.len() + 2) as u16;
    blob.extend_from_slice(&n.to_le_bytes());
    blob.extend_from_slice(&[17, 0]);
    blob.extend_from_slice(&z);
    let (r, q) = read_partial::<RZlib>(&blob).unwrap();
    assert_eq!(r.data, b"hello hello hello".to_vec());
    assert_eq!(q, blob.len());
    assert_eq!(read_partial::<RZlib>(&[0x02, 1, 0, 5]), Err(BinError::Decompress));
    assert_eq!(read_partial::<RZlib>(&[0x02, 0, 0]).unwrap().0, RZlib::empty());
}

#[test]
fn guessed_elements_of_typed_reader() {
    let v = read_guess_all(&[0x04, 1, 0, 0, 0, 0x02, 3, 0, b'o', b'k', 0]).unwrap();
    assert_eq!(v.len(), 2);
    assert!(read_guess_all(&[0x04, 1]).is_err());
    assert!(read_guess_all(&[]).unwrap().is_empty());
}
