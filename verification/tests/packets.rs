use rqsrv::protocol::{ChatMessage, ServerList};
use rqsrv::rqode_binrw::{read_guess_all, read_partial};

#[test]
pub fn packet_x() {
    let hex: [u8; 203] = [
        0x03, 0x01, 0x02, 0x02, 0x00, 0x02, 0x25, 0x00, 0x35, 0x62, 0x30, 0x36, 0x38, 0x36, 0x36, 0x31,
        0x2d, 0x31, 0x62, 0x64, 0x30, 0x2d, 0x31, 0x31, 0x66, 0x31, 0x2d, 0x38, 0x38, 0x66, 0x31, 0x2d,
        0x66, 0x61, 0x31, 0x36, 0x33, 0x65, 0x65, 0x34, 0x63, 0x34, 0x63, 0x35, 0x00, 0x02, 0x25, 0x00,
        0x35, 0x62, 0x30, 0x36, 0x39, 0x30, 0x37, 0x38, 0x2d, 0x31, 0x62, 0x64, 0x30, 0x2d, 0x31, 0x31,
        0x66, 0x31, 0x2d, 0x38, 0x38, 0x66, 0x31, 0x2d, 0x66, 0x61, 0x31, 0x36, 0x33, 0x65, 0x65, 0x34,
        0x63, 0x34, 0x63, 0x35, 0x00, 0x04, 0x5f, 0xed, 0xae, 0x69, 0x04, 0x94, 0x06, 0x00, 0x00, 0x02,
        0x1e, 0x00, 0x04, 0x00, 0x00, 0x04, 0x00, 0x02, 0x25, 0x00, 0x39, 0x61, 0x62, 0x33, 0x31, 0x38,
        0x36, 0x36, 0x2d, 0x31, 0x63, 0x66, 0x31, 0x2d, 0x31, 0x31, 0x66, 0x31, 0x2d, 0x38, 0x38, 0x66,
        0x31, 0x2d, 0x66, 0x61, 0x31, 0x36, 0x33, 0x65, 0x65, 0x34, 0x63, 0x34, 0x63, 0x35, 0x00, 0x02,
        0x25, 0x00, 0x39, 0x61, 0x62, 0x33, 0x31, 0x64, 0x37, 0x39, 0x2d, 0x31, 0x63, 0x66, 0x31, 0x2d,
        0x31, 0x31, 0x66, 0x31, 0x2d, 0x38, 0x38, 0x66, 0x31, 0x2d, 0x66, 0x61, 0x31, 0x36, 0x33, 0x65,
        0x65, 0x34, 0x63, 0x34, 0x63, 0x35, 0x00, 0x04, 0xa7, 0xd2, 0xb0, 0x69, 0x04, 0x7e, 0x0d, 0x00,
        0x00, 0x02, 0x0a, 0x00, 0x04, 0x00, 0x00, 0x04, 0x00, 0x03, 0x01,
    ];

    let v = read_guess_all(&hex).unwrap();
    println!("{:?}", v);
}

#[test]
pub fn packet_02() {
    let hex: [u8; 415] = [
        0x02, 0x0a, 0x00, 0x02, 0x04, 0x00, 0x02, 0x0d, 0x00, 0xd0, 0x93, 0xd0, 0xb5, 0xd0, 0xbb, 0xd0,
        0xb8, 0xd0, 0xbe, 0xd1, 0x81, 0x00, 0x04, 0x02, 0x00, 0x00, 0x00, 0x02, 0x05, 0x00, 0x02, 0x0f,
        0x00, 0x49, 0x67, 0x6e, 0x69, 0x73, 0x20, 0x28, 0x45, 0x75, 0x72, 0x6f, 0x70, 0x65, 0x29, 0x00,
        0x04, 0x05, 0x00, 0x00, 0x00, 0x02, 0x06, 0x00, 0x02, 0x10, 0x00, 0x41, 0x7a, 0x74, 0x65, 0x63,
        0x20, 0x28, 0x41, 0x6d, 0x65, 0x72, 0x69, 0x63, 0x61, 0x29, 0x00, 0x04, 0x02, 0x00, 0x00, 0x00,
        0x02, 0x07, 0x00, 0x02, 0x10, 0x00, 0x4f, 0x72, 0x74, 0x6f, 0x73, 0x20, 0x28, 0x41, 0x6d, 0x65,
        0x72, 0x69, 0x63, 0x61, 0x29, 0x00, 0x04, 0x01, 0x00, 0x00, 0x00, 0x02, 0x08, 0x00, 0x02, 0x0d,
        0x00, 0x41, 0x73, 0x74, 0x75, 0x73, 0x20, 0x28, 0x41, 0x73, 0x69, 0x61, 0x29, 0x00, 0x04, 0x03,
        0x00, 0x00, 0x00, 0x02, 0x09, 0x00, 0x02, 0x0a, 0x00, 0x53, 0x6f, 0x6c, 0x75, 0x73, 0x5f, 0x6f,
        0x6c, 0x64, 0x00, 0x04, 0x03, 0x00, 0x00, 0x00, 0x02, 0x0a, 0x00, 0x02, 0x11, 0x00, 0xd0, 0xa4,
        0xd0, 0xb5, 0xd0, 0xbd, 0xd0, 0xb8, 0xd0, 0xba, 0xd1, 0x81, 0x5f, 0x6f, 0x6c, 0x64, 0x00, 0x04,
        0x02, 0x00, 0x00, 0x00, 0x02, 0x0b, 0x00, 0x02, 0x06, 0x00, 0x53, 0x6f, 0x6c, 0x75, 0x73, 0x00,
        0x04, 0x03, 0x00, 0x00, 0x00, 0x02, 0x0c, 0x00, 0x02, 0x0d, 0x00, 0xd0, 0xa4, 0xd0, 0xb5, 0xd0,
        0xbd, 0xd0, 0xb8, 0xd0, 0xba, 0xd1, 0x81, 0x00, 0x04, 0x01, 0x00, 0x00, 0x00, 0x02, 0x33, 0x00,
        0x02, 0x0f, 0x00, 0x50, 0x79, 0x72, 0x6f, 0x73, 0x20, 0x28, 0x45, 0x75, 0x72, 0x6f, 0x70, 0x65,
        0x29, 0x00, 0x04, 0x04, 0x00, 0x00, 0x00, 0x02, 0x0a, 0x00, 0x02, 0x04, 0x00, 0x02, 0x14, 0x00,
        0x02, 0x05, 0x00, 0x02, 0x00, 0x00, 0x02, 0x06, 0x00, 0x02, 0x00, 0x00, 0x02, 0x07, 0x00, 0x02,
        0x00, 0x00, 0x02, 0x08, 0x00, 0x02, 0x00, 0x00, 0x02, 0x09, 0x00, 0x02, 0x00, 0x00, 0x02, 0x0a,
        0x00, 0x02, 0x00, 0x00, 0x02, 0x0b, 0x00, 0x02, 0x00, 0x00, 0x02, 0x0c, 0x00, 0x02, 0x1c, 0x00,
        0x02, 0x33, 0x00, 0x02, 0x00, 0x00, 0x02, 0x02, 0x00, 0x02, 0x04, 0x00, 0x04, 0x25, 0x09, 0x35,
        0xc1, 0x02, 0x9e, 0x10, 0x02, 0x2f, 0x00, 0x02, 0x0c, 0x00, 0x04, 0x25, 0x09, 0x35, 0x5e, 0x02,
        0x9e, 0x10, 0x02, 0x4d, 0x00, 0x04, 0x00, 0x00, 0x00, 0x00, 0x03, 0x00, 0x04, 0x00, 0x00, 0x00,
        0x00, 0x08, 0x53, 0xa3, 0xb2, 0x69, 0x00, 0x00, 0x00, 0x00, 0x04, 0xb9, 0xa4, 0x8e, 0x22, 0x02,
        0x04, 0x00, 0x08, 0xf4, 0x8f, 0xb2, 0x69, 0x00, 0x00, 0x00, 0x00, 0x02, 0x01, 0x00, 0x02, 0x04,
        0x00, 0x02, 0x01, 0x00, 0x04, 0xe4, 0x6b, 0x99, 0x00, 0x08, 0x32, 0x11, 0xfb, 0x4f, 0x07, 0xaf,
        0x00, 0x00, 0x08, 0xaa, 0xf6, 0x0e, 0x83, 0xe9, 0x04, 0x00, 0x00, 0x02, 0x01, 0x00, 0x00,
    ];

    let v = read_partial::<ServerList>(&hex).unwrap();
    println!("{:?}", v);
}

#[test]
pub fn packet_4e() {
    let hex: [u8; 51] = [
        0x21, 0x00, 0x28, 0x50, 0x00, 0x02, 0x0f, 0x00, 0x34, 0x2d, 0x38, 0xd0, 0xba, 0xd0, 0xb8, 0x20,
        0x2b, 0x32, 0xd0, 0x94, 0xd0, 0x94, 0x00, 0x02, 0x19, 0x00, 0xd0, 0x95, 0xd0, 0xbb, 0xd0, 0xb8,
        0xd0, 0xb7, 0xd0, 0xb0, 0xd0, 0xb2, 0xd0, 0xb5, 0xd1, 0x82, 0xd0, 0xbe, 0xd1, 0x87, 0xd0, 0xba,
        0xd0, 0xb0, 0x00,
    ];

    let v = read_partial::<ChatMessage>(&hex).unwrap();
    println!("{:?}", v);
}
