use rand::rngs::OsRng;
use pretty_hex::PrettyHex;
use rsa::{BigUint, RsaPrivateKey, RsaPublicKey};
use rqsrv::cipher::{modulus_transform, CipherError, CipherS, RsaKeyParts, MODULUS_PSEUDO};
use rqsrv::rc4::CustomRc4;

const PRIME1: [u8; 256] = [
    0x37, 0xed, 0x2b, 0xed, 0x6a, 0xd9, 0x20, 0x46, 0x3c, 0x45, 0xb0, 0xdc, 0xc3, 0x52, 0xf3, 0x08,
    0xbf, 0xba, 0xe1, 0x83, 0x73, 0x1d, 0x25, 0x8c, 0xfe, 0x5a, 0xc5, 0x46, 0x44, 0x01, 0xe7, 0xb8,
    0x2c, 0xa8, 0x93, 0x85, 0xd3, 0x18, 0x6e, 0xad, 0x48, 0x3d, 0xe0, 0x51, 0xc8, 0x63, 0xdf, 0xd9,
    0xeb, 0x81, 0x70, 0x78, 0x95, 0x47, 0xfd, 0x1a, 0xfb, 0xca, 0x68, 0xb1, 0x7e, 0x5a, 0x83, 0xb9,
    0x00, 0x00, 0x00, 0x00, 0x00, 0x00, 0x00, 0x00, 0x00, 0x00, 0x00, 0x00, 0x00, 0x00, 0x00, 0x00,
    0x00, 0x00, 0x00, 0x00, 0x00, 0x00, 0x00, 0x00, 0x00, 0x00, 0x00, 0x00, 0x00, 0x00, 0x00, 0x00,
    0x00, 0x00, 0x00, 0x00, 0x00, 0x00, 0x00, 0x00, 0x00, 0x00, 0x00, 0x00, 0x00, 0x00, 0x00, 0x00,
    0x00, 0x00, 0x00, 0x00, 0x00, 0x00, 0x00, 0x00, 0x00, 0x00, 0x00, 0x00, 0x00, 0x00, 0x00, 0x00,
    0x00, 0x00, 0x00, 0x00, 0x00, 0x00, 0x00, 0x00, 0x00, 0x00, 0x00, 0x00, 0x00, 0x00, 0x00, 0x00,
    0x00, 0x00, 0x00, 0x00, 0x00, 0x00, 0x00, 0x00, 0x00, 0x00, 0x00, 0x00, 0x00, 0x00, 0x00, 0x00,
    0x00, 0x00, 0x00, 0x00, 0x00, 0x00, 0x00, 0x00, 0x00, 0x00, 0x00, 0x00, 0x00, 0x00, 0x00, 0x00,
    0x00, 0x00, 0x00, 0x00, 0x00, 0x00, 0x00, 0x00, 0x00, 0x00, 0x00, 0x00, 0x00, 0x00, 0x00, 0x00,
    0x00, 0x00, 0x00, 0x00, 0x00, 0x00, 0x00, 0x00, 0x00, 0x00, 0x00, 0x00, 0x00, 0x00, 0x00, 0x00,
    0x00, 0x00, 0x00, 0x00, 0x00, 0x00, 0x00, 0x00, 0x00, 0x00, 0x00, 0x00, 0x00, 0x00, 0x00, 0x00,
    0x00, 0x00, 0x00, 0x00, 0x00, 0x00, 0x00, 0x00, 0x00, 0x00, 0x00, 0x00, 0x00, 0x00, 0x00, 0x00,
    0x00, 0x00, 0x00, 0x00, 0x00, 0x00, 0x00, 0x00, 0x00, 0x00, 0x00, 0x00, 0x00, 0x00, 0x00, 0x00,
];

const PRIME2: [u8; 256] = [
    0xf7, 0xce, 0x54, 0x9b, 0x65, 0xc5, 0xdf, 0x22, 0xc0, 0x49, 0x82, 0xd1, 0xb8, 0x96, 0x96, 0xfc,
    0xc8, 0x92, 0xa6, 0xe7, 0x34, 0xb0, 0x4d, 0x3b, 0xa4, 0x93, 0x24, 0x54, 0xf2, 0x30, 0x95, 0x92,
    0xf7, 0x7a, 0x12, 0x85, 0xc8, 0x53, 0x38, 0xf8, 0xaf, 0xd3, 0xba, 0xc9, 0xc4, 0x8a, 0xb0, 0xa1,
    0x15, 0x1d, 0xc7, 0xec, 0x92, 0xc5, 0x6a, 0xde, 0x06, 0x29, 0x5c, 0x53, 0x6e, 0xd1, 0x4c, 0x00,
    0x00, 0x00, 0x00, 0x00, 0x00, 0x00, 0x00, 0x00, 0x00, 0x00, 0x00, 0x00, 0x00, 0x00, 0x00, 0x00,
    0x00, 0x00, 0x00, 0x00, 0x00, 0x00, 0x00, 0x00, 0x00, 0x00, 0x00, 0x00, 0x00, 0x00, 0x00, 0x00,
    0x00, 0x00, 0x00, 0x00, 0x00, 0x00, 0x00, 0x00, 0x00, 0x00, 0x00, 0x00, 0x00, 0x00, 0x00, 0x00,
    0x00, 0x00, 0x00, 0x00, 0x00, 0x00, 0x00, 0x00, 0x00, 0x00, 0x00, 0x00, 0x00, 0x00, 0x00, 0x00,
    0x00, 0x00, 0x00, 0x00, 0x00, 0x00, 0x00, 0x00, 0x00, 0x00, 0x00, 0x00, 0x00, 0x00, 0x00, 0x00,
    0x00, 0x00, 0x00, 0x00, 0x00, 0x00, 0x00, 0x00, 0x00, 0x00, 0x00, 0x00, 0x00, 0x00, 0x00, 0x00,
    0x00, 0x00, 0x00, 0x00, 0x00, 0x00, 0x00, 0x00, 0x00, 0x00, 0x00, 0x00, 0x00, 0x00, 0x00, 0x00,
    0x00, 0x00, 0x00, 0x00, 0x00, 0x00, 0x00, 0x00, 0x00, 0x00, 0x00, 0x00, 0x00, 0x00, 0x00, 0x00,
    0x00, 0x00, 0x00, 0x00, 0x00, 0x00, 0x00, 0x00, 0x00, 0x00, 0x00, 0x00, 0x00, 0x00, 0x00, 0x00,
    0x00, 0x00, 0x00, 0x00, 0x00, 0x00, 0x00, 0x00, 0x00, 0x00, 0x00, 0x00, 0x00, 0x00, 0x00, 0x00,
    0x00, 0x00, 0x00, 0x00, 0x00, 0x00, 0x00, 0x00, 0x00, 0x00, 0x00, 0x00, 0x00, 0x00, 0x00, 0x00,
    0x00, 0x00, 0x00, 0x00, 0x00, 0x00, 0x00, 0x00, 0x00, 0x00, 0x00, 0x00, 0x00, 0x00, 0x00, 0x00,
];

const PRIV_EXPO: [u8; 128] = [
    0x35, 0x9f, 0x5a, 0x99, 0x80, 0xcc, 0xf6, 0xac, 0x3b, 0x47, 0xe0, 0x70, 0xd2, 0x58, 0x30, 0x1f,
    0xf4, 0x5f, 0x70, 0x53, 0x41, 0xc2, 0xcc, 0xad, 0xa8, 0xc2, 0xc3, 0x4b, 0xed, 0x2d, 0x79, 0x07,
    0x73, 0x1e, 0xea, 0x35, 0x3f, 0x46, 0xf5, 0x28, 0xf5, 0x8e, 0x10, 0x63, 0xdb, 0x8a, 0x1c, 0x8d,
    0xc0, 0x68, 0x45, 0x28, 0x51, 0xe1, 0x94, 0x67, 0x73, 0x65, 0x28, 0x0a, 0x77, 0xf4, 0xed, 0x36,
    0x22, 0x65, 0xa3, 0x61, 0xb9, 0xe1, 0x5b, 0xa9, 0xdf, 0x03, 0x0f, 0x38, 0x43, 0xc2, 0xab, 0xf6,
    0x73, 0x53, 0xc8, 0x53, 0xee, 0xf3, 0x81, 0x28, 0x99, 0x92, 0x9f, 0x4b, 0x1c, 0x76, 0x6c, 0x74,
    0xcc, 0xa6, 0x23, 0x88, 0xbd, 0xf4, 0x8e, 0x28, 0x84, 0x8c, 0xc3, 0x04, 0x58, 0x6e, 0xb8, 0xb4,
    0x38, 0xd4, 0x18, 0xfa, 0xff, 0xb6, 0x47, 0xba, 0x73, 0xbf, 0xb5, 0x84, 0x3e, 0xe8, 0x0d, 0x00,
];

const PUBKEY_MODULUS: [u8; 128] = [
    0x11, 0x22, 0x50, 0x51, 0xc1, 0x25, 0x1e, 0x7e, 0xb8, 0x4a, 0x74, 0x4a, 0xe2, 0x54, 0x40, 0x37,
    0xbd, 0x8e, 0xfa, 0xf3, 0xf7, 0xc8, 0x84, 0xb1, 0xd2, 0x86, 0x55, 0xf4, 0xe8, 0x91, 0x42, 0x9a,
    0xaa, 0x5b, 0x2c, 0x27, 0xe1, 0xc4, 0xd1, 0xf4, 0xaf, 0xcd, 0xfb, 0x66, 0xe8, 0x31, 0xa4, 0x63,
    0x1c, 0xc8, 0x54, 0x8d, 0xd5, 0x58, 0xae, 0x2e, 0x37, 0x2e, 0xf2, 0xbb, 0xd9, 0xbb, 0x80, 0x2d,
    0xe6, 0x85, 0xca, 0xb6, 0xaa, 0x09, 0x1f, 0x62, 0xd8, 0x66, 0x29, 0xd4, 0x6d, 0x22, 0xe1, 0x52,
    0xdf, 0x23, 0x6e, 0xb7, 0x77, 0x83, 0x38, 0x46, 0x50, 0xd9, 0x76, 0x59, 0x9a, 0x2a, 0xd4, 0xa5,
    0xbf, 0x12, 0x9d, 0x8d, 0x80, 0x83, 0x6a, 0xdd, 0x7a, 0x17, 0x82, 0x2d, 0xa9, 0x13, 0x2b, 0xe0,
    0x30, 0x27, 0x0b, 0xd1, 0x03, 0xa9, 0x16, 0xa8, 0xa9, 0x5b, 0x57, 0x0d, 0xc3, 0xaa, 0x37, 0x00,
];

const HANDSHAKE_MSG: [u8; 640] = [
    0xa6, 0x29, 0xd3, 0x07, 0x9c, 0x2d, 0x90, 0x69, 0x55, 0x63, 0x5a, 0x61, 0x25, 0x6f, 0xb9, 0x29,
    0xd8, 0x62, 0x1a, 0x6b, 0xbb, 0x10, 0x84, 0x1e, 0xb0, 0x8a, 0x68, 0xc1, 0x5e, 0x7b, 0x79, 0xb5,
    0x44, 0xee, 0x70, 0xf4, 0xf3, 0xf1, 0x6f, 0xa4, 0x6b, 0xf5, 0xf7, 0x62, 0xb1, 0x61, 0x52, 0xb8,
    0x5a, 0x46, 0xda, 0x1a, 0x46, 0x91, 0xa3, 0x36, 0xb5, 0x53, 0xbd, 0x51, 0xb8, 0x2c, 0x48, 0xa7,
    0x04, 0xec, 0xc8, 0x99, 0xc3, 0x14, 0xe1, 0xea, 0xdd, 0xb4, 0x91, 0xcd, 0x80, 0x82, 0x67, 0x8d,
    0x06, 0x85, 0x41, 0x73, 0x89, 0x92, 0x57, 0x39, 0xb9, 0xf6, 0x9b, 0x0e, 0x3b, 0x63, 0xcf, 0x0a,
    0x87, 0x22, 0x5f, 0xbf, 0x78, 0x41, 0xde, 0x11, 0x4c, 0x0d, 0x12, 0xf3, 0x5b, 0x21, 0x0d, 0x83,
    0x8f, 0xc1, 0x5c, 0x4e, 0x69, 0x09, 0x9b, 0x3e, 0x92, 0x83, 0xc6, 0xc3, 0x4e, 0x97, 0x6e, 0x32,
    0xe6, 0xf5, 0xdc, 0x15, 0xc7, 0x57, 0xec, 0xb6, 0x4b, 0x1b, 0x46, 0xa7, 0x83, 0xfc, 0xbe, 0xf4,
    0xc9, 0x23, 0x4d, 0xc0, 0xae, 0x19, 0xe9, 0x96, 0xf1, 0x18, 0xf5, 0x8a, 0xb4, 0x63, 0xf2, 0x06,
    0xc0, 0x88, 0x33, 0xb2, 0x34, 0x83, 0x95, 0x07, 0x0e, 0x61, 0xbe, 0x84, 0x62, 0x38, 0xdf, 0x8d,
    0xa9, 0xe6, 0x91, 0x5f, 0xa9, 0x3a, 0x8f, 0x7e, 0x08, 0x00, 0x71, 0xcf, 0x7d, 0xed, 0x73, 0xff,
    0x26, 0x04, 0xce, 0xcf, 0x71, 0xd0, 0xe7, 0xed, 0x54, 0x97, 0x3d, 0x75, 0x2b, 0x8a, 0x37, 0x9c,
    0x02, 0x4a, 0x21, 0x32, 0x42, 0x7b, 0xb9, 0x33, 0x86, 0x8a, 0xbd, 0x01, 0xa5, 0x0f, 0xc7, 0xcb,
    0x8c, 0xb1, 0x83, 0xc5, 0x35, 0xa2, 0xd2, 0xc7, 0x86, 0x05, 0x87, 0xea, 0xdc, 0xc9, 0xac, 0xb2,
    0x3d, 0xd5, 0xd6, 0x5c, 0xb3, 0xc7, 0x4c, 0x42, 0xe4, 0x40, 0x20, 0xd6, 0x45, 0x4e, 0x01, 0x00,
    0x71, 0xda, 0x85, 0x9c, 0x8e, 0x1b, 0xe2, 0xd6, 0xa9, 0xdc, 0xad, 0xc8, 0xc7, 0x3e, 0x57, 0x2e,
    0x37, 0xd2, 0x12, 0x00, 0x38, 0xad, 0x82, 0x17, 0x65, 0xfe, 0x72, 0x87, 0x6a, 0xe3, 0xd8, 0xd8,
    0x0c, 0xf7, 0xd7, 0x91, 0xa9, 0x5b, 0xfe, 0x32, 0x04, 0x1c, 0xa8, 0x84, 0x0d, 0x82, 0xe1, 0x8d,
    0x0f, 0x64, 0xeb, 0xba, 0x63, 0x8e, 0xfd, 0xaa, 0x42, 0xd8, 0xa3, 0x60, 0xa4, 0xc8, 0xf1, 0xcd,
    0x87, 0xb0, 0xf4, 0x7c, 0xa6, 0xa2, 0x4a, 0x46, 0x3d, 0xb4, 0xe6, 0xdb, 0x0f, 0x65, 0xdd, 0x72,
    0x07, 0x3a, 0x97, 0xf7, 0xa6, 0x4b, 0x02, 0x9e, 0xd7, 0xe6, 0x6b, 0xdf, 0xe1, 0x3c, 0x4a, 0x50,
    0xa3, 0x60, 0xfb, 0x14, 0xbd, 0xcf, 0xca, 0xb5, 0x69, 0x08, 0x49, 0x3d, 0x88, 0xe5, 0xb0, 0xa5,
    0x4c, 0xc4, 0xcb, 0xc0, 0x05, 0xa8, 0x17, 0x08, 0x35, 0x48, 0x30, 0x95, 0xa7, 0xf3, 0x0f, 0x00,
    0x65, 0x42, 0x07, 0xf3, 0x56, 0x7d, 0x85, 0x3d, 0x1e, 0x6b, 0xdd, 0x6c, 0x48, 0xd8, 0xb0, 0x35,
    0x8c, 0xa5, 0x42, 0xa2, 0xcd, 0xf8, 0x4b, 0xd5, 0xd6, 0x51, 0xaa, 0x45, 0xe9, 0x14, 0xc4, 0x8f,
    0xe4, 0xb8, 0x42, 0xe0, 0x1e, 0xf8, 0x25, 0xd5, 0x22, 0xca, 0x79, 0x9d, 0xb8, 0xe0, 0xcd, 0xdf,
    0xd3, 0x0c, 0xd0, 0x33, 0x8b, 0x4a, 0x67, 0xf8, 0x70, 0x85, 0x93, 0xb4, 0x74, 0x45, 0xc7, 0x14,
    0x53, 0xe2, 0x41, 0x6b, 0xf6, 0x9c, 0x63, 0x37, 0xfc, 0x70, 0x21, 0x99, 0x48, 0xa8, 0xea, 0xe3,
    0xa7, 0x47, 0xe5, 0xb7, 0x4f, 0xd7, 0x30, 0xcd, 0xd0, 0x4a, 0x80, 0xff, 0x75, 0x77, 0x51, 0xb3,
    0xb0, 0x3a, 0x54, 0xa4, 0x66, 0x3c, 0x62, 0x91, 0xc6, 0x91, 0xf4, 0x8e, 0x9f, 0x90, 0x08, 0xf6,
    0x59, 0x5f, 0xc2, 0xcc, 0xe2, 0x57, 0xd9, 0x12, 0x4f, 0xdf, 0xc9, 0xdc, 0x9f, 0xb5, 0x34, 0x00,
    0xa1, 0x4a, 0x53, 0xa7, 0xd1, 0x66, 0x5c, 0x4b, 0x47, 0x71, 0xfe, 0xd3, 0x89, 0x86, 0x6c, 0xaf,
    0x34, 0x5b, 0xaf, 0x68, 0x9e, 0x58, 0xa4, 0x34, 0x9e, 0x03, 0xcb, 0x39, 0x58, 0xc7, 0x64, 0x6e,
    0x14, 0xcc, 0x40, 0x9f, 0x7c, 0x0c, 0xa6, 0xe6, 0xcf, 0x95, 0xe5, 0xc6, 0xd1, 0x4f, 0xa7, 0x2b,
    0x95, 0xfc, 0xe3, 0x43, 0x19, 0x0c, 0xa7, 0x69, 0x89, 0x0a, 0x60, 0x74, 0x12, 0x54, 0xc7, 0x07,
    0x22, 0xaa, 0xc9, 0xf1, 0xa7, 0x39, 0x7a, 0xbf, 0x3d, 0xcb, 0x32, 0xd9, 0x08, 0x9f, 0x10, 0x27,
    0x31, 0xc4, 0x93, 0x86, 0xca, 0x3e, 0x4e, 0xa5, 0xb5, 0xb8, 0xe5, 0xd8, 0x30, 0x9e, 0x95, 0x01,
    0xe8, 0x05, 0xa8, 0x15, 0x1e, 0x12, 0xf7, 0xd6, 0xe0, 0xb5, 0xc1, 0x3d, 0x9e, 0xb9, 0xf3, 0x73,
    0xff, 0x1e, 0x6d, 0x21, 0xcb, 0x1d, 0x1f, 0xeb, 0x83, 0x76, 0x2e, 0xa0, 0xf6, 0x12, 0x21, 0x00,
];

const AFTER_MOD: [u8; 640] = [
    0x75, 0x3b, 0x74, 0x00, 0xf5, 0x54, 0x3d, 0xa1, 0x40, 0x7d, 0x4e, 0xb0, 0x1e, 0xc8, 0xc9, 0x60,
    0xc2, 0x7c, 0x1d, 0x1c, 0x33, 0xa2, 0x24, 0x43, 0xea, 0x9b, 0x0a, 0x78, 0x3f, 0x2e, 0x01, 0xb8,
    0xf6, 0xe8, 0x8c, 0x85, 0xdc, 0x15, 0xb8, 0xb2, 0x70, 0x56, 0x70, 0x91, 0xba, 0xdb, 0x36, 0x3b,
    0x65, 0x32, 0x44, 0x67, 0x17, 0xf1, 0x84, 0x34, 0x73, 0x14, 0xae, 0x89, 0x14, 0x18, 0x1f, 0xd5,
    0x9b, 0xa8, 0xc1, 0xff, 0x6b, 0x14, 0x21, 0x60, 0x22, 0x54, 0xfd, 0x9c, 0x40, 0x7a, 0x5a, 0x14,
    0x1f, 0xd0, 0xc1, 0x24, 0x7b, 0x22, 0xc2, 0x41, 0x3f, 0xa6, 0x2d, 0xd0, 0xca, 0x3e, 0x41, 0x18,
    0x69, 0xc8, 0x40, 0xd6, 0xe7, 0x04, 0xa5, 0x4a, 0x9f, 0x5b, 0x8f, 0xe4, 0xd8, 0x17, 0x07, 0x16,
    0x6a, 0xa0, 0xcf, 0xf9, 0xbb, 0x3d, 0x29, 0x10, 0x70, 0x56, 0xbd, 0x47, 0xd2, 0x97, 0x07, 0x00,
    0xe6, 0xf5, 0xdc, 0x15, 0xc7, 0x57, 0xec, 0xb6, 0x4b, 0x1b, 0x46, 0xa7, 0x83, 0xfc, 0xbe, 0xf4,
    0xc9, 0x23, 0x4d, 0xc0, 0xae, 0x19, 0xe9, 0x96, 0xf1, 0x18, 0xf5, 0x8a, 0xb4, 0x63, 0xf2, 0x06,
    0xc0, 0x88, 0x33, 0xb2, 0x34, 0x83, 0x95, 0x07, 0x0e, 0x61, 0xbe, 0x84, 0x62, 0x38, 0xdf, 0x8d,
    0xa9, 0xe6, 0x91, 0x5f, 0xa9, 0x3a, 0x8f, 0x7e, 0x08, 0x00, 0x71, 0xcf, 0x7d, 0xed, 0x73, 0xff,
    0x26, 0x04, 0xce, 0xcf, 0x71, 0xd0, 0xe7, 0xed, 0x54, 0x97, 0x3d, 0x75, 0x2b, 0x8a, 0x37, 0x9c,
    0x02, 0x4a, 0x21, 0x32, 0x42, 0x7b, 0xb9, 0x33, 0x86, 0x8a, 0xbd, 0x01, 0xa5, 0x0f, 0xc7, 0xcb,
    0x8c, 0xb1, 0x83, 0xc5, 0x35, 0xa2, 0xd2, 0xc7, 0x86, 0x05, 0x87, 0xea, 0xdc, 0xc9, 0xac, 0xb2,
    0x3d, 0xd5, 0xd6, 0x5c, 0xb3, 0xc7, 0x4c, 0x42, 0xe4, 0x40, 0x20, 0xd6, 0x45, 0x4e, 0x01, 0x00,
    0x71, 0xda, 0x85, 0x9c, 0x8e, 0x1b, 0xe2, 0xd6, 0xa9, 0xdc, 0xad, 0xc8, 0xc7, 0x3e, 0x57, 0x2e,
    0x37, 0xd2, 0x12, 0x00, 0x38, 0xad, 0x82, 0x17, 0x65, 0xfe, 0x72, 0x87, 0x6a, 0xe3, 0xd8, 0xd8,
    0x0c, 0xf7, 0xd7, 0x91, 0xa9, 0x5b, 0xfe, 0x32, 0x04, 0x1c, 0xa8, 0x84, 0x0d, 0x82, 0xe1, 0x8d,
    0x0f, 0x64, 0xeb, 0xba, 0x63, 0x8e, 0xfd, 0xaa, 0x42, 0xd8, 0xa3, 0x60, 0xa4, 0xc8, 0xf1, 0xcd,
    0x87, 0xb0, 0xf4, 0x7c, 0xa6, 0xa2, 0x4a, 0x46, 0x3d, 0xb4, 0xe6, 0xdb, 0x0f, 0x65, 0xdd, 0x72,
    0x07, 0x3a, 0x97, 0xf7, 0xa6, 0x4b, 0x02, 0x9e, 0xd7, 0xe6, 0x6b, 0xdf, 0xe1, 0x3c, 0x4a, 0x50,
    0xa3, 0x60, 0xfb, 0x14, 0xbd, 0xcf, 0xca, 0xb5, 0x69, 0x08, 0x49, 0x3d, 0x88, 0xe5, 0xb0, 0xa5,
    0x4c, 0xc4, 0xcb, 0xc0, 0x05, 0xa8, 0x17, 0x08, 0x35, 0x48, 0x30, 0x95, 0xa7, 0xf3, 0x0f, 0x00,
    0x65, 0x42, 0x07, 0xf3, 0x56, 0x7d, 0x85, 0x3d, 0x1e, 0x6b, 0xdd, 0x6c, 0x48, 0xd8, 0xb0, 0x35,
    0x8c, 0xa5, 0x42, 0xa2, 0xcd, 0xf8, 0x4b, 0xd5, 0xd6, 0x51, 0xaa, 0x45, 0xe9, 0x14, 0xc4, 0x8f,
    0xe4, 0xb8, 0x42, 0xe0, 0x1e, 0xf8, 0x25, 0xd5, 0x22, 0xca, 0x79, 0x9d, 0xb8, 0xe0, 0xcd, 0xdf,
    0xd3, 0x0c, 0xd0, 0x33, 0x8b, 0x4a, 0x67, 0xf8, 0x70, 0x85, 0x93, 0xb4, 0x74, 0x45, 0xc7, 0x14,
    0x53, 0xe2, 0x41, 0x6b, 0xf6, 0x9c, 0x63, 0x37, 0xfc, 0x70, 0x21, 0x99, 0x48, 0xa8, 0xea, 0xe3,
    0xa7, 0x47, 0xe5, 0xb7, 0x4f, 0xd7, 0x30, 0xcd, 0xd0, 0x4a, 0x80, 0xff, 0x75, 0x77, 0x51, 0xb3,
    0xb0, 0x3a, 0x54, 0xa4, 0x66, 0x3c, 0x62, 0x91, 0xc6, 0x91, 0xf4, 0x8e, 0x9f, 0x90, 0x08, 0xf6,
    0x59, 0x5f, 0xc2, 0xcc, 0xe2, 0x57, 0xd9, 0x12, 0x4f, 0xdf, 0xc9, 0xdc, 0x9f, 0xb5, 0x34, 0x00,
    0xa1, 0x4a, 0x53, 0xa7, 0xd1, 0x66, 0x5c, 0x4b, 0x47, 0x71, 0xfe, 0xd3, 0x89, 0x86, 0x6c, 0xaf,
    0x34, 0x5b, 0xaf, 0x68, 0x9e, 0x58, 0xa4, 0x34, 0x9e, 0x03, 0xcb, 0x39, 0x58, 0xc7, 0x64, 0x6e,
    0x14, 0xcc, 0x40, 0x9f, 0x7c, 0x0c, 0xa6, 0xe6, 0xcf, 0x95, 0xe5, 0xc6, 0xd1, 0x4f, 0xa7, 0x2b,
    0x95, 0xfc, 0xe3, 0x43, 0x19, 0x0c, 0xa7, 0x69, 0x89, 0x0a, 0x60, 0x74, 0x12, 0x54, 0xc7, 0x07,
    0x22, 0xaa, 0xc9, 0xf1, 0xa7, 0x39, 0x7a, 0xbf, 0x3d, 0xcb, 0x32, 0xd9, 0x08, 0x9f, 0x10, 0x27,
    0x31, 0xc4, 0x93, 0x86, 0xca, 0x3e, 0x4e, 0xa5, 0xb5, 0xb8, 0xe5, 0xd8, 0x30, 0x9e, 0x95, 0x01,
    0xe8, 0x05, 0xa8, 0x15, 0x1e, 0x12, 0xf7, 0xd6, 0xe0, 0xb5, 0xc1, 0x3d, 0x9e, 0xb9, 0xf3, 0x73,
    0xff, 0x1e, 0x6d, 0x21, 0xcb, 0x1d, 0x1f, 0xeb, 0x83, 0x76, 0x2e, 0xa0, 0xf6, 0x12, 0x21, 0x00,
];

const AFTER_DECRYPT: [u8; 640] = [
    0x63, 0xb9, 0xe2, 0xc2, 0xb1, 0x23, 0xb7, 0x0b, 0x8f, 0xcd, 0x87, 0xa3, 0x74, 0x73, 0xf1, 0xea,
    0x59, 0x4d, 0x7c, 0x46, 0xe8, 0xbc, 0x3d, 0xa4, 0x88, 0xb5, 0xa2, 0xe4, 0xf0, 0x60, 0x53, 0x84,
    0x8a, 0x2c, 0xf7, 0xca, 0x77, 0x30, 0x83, 0x64, 0x20, 0x40, 0x8d, 0x75, 0x78, 0x7b, 0x0a, 0xaf,
    0x43, 0x18, 0x2d, 0x67, 0xeb, 0xa0, 0x5a, 0xf2, 0x06, 0xab, 0x4f, 0xd5, 0x3c, 0x8b, 0x1e, 0x6d,
    0x4b, 0x1f, 0xfc, 0x35, 0x70, 0xbf, 0x6f, 0x81, 0x9a, 0xa8, 0x29, 0x97, 0xa6, 0xb3, 0x04, 0xae,
    0xc3, 0xf6, 0x7f, 0xb8, 0x4c, 0x0d, 0xf9, 0xed, 0x9d, 0x36, 0x3a, 0x61, 0x41, 0xd3, 0xdb, 0x98,
    0x62, 0x11, 0x76, 0x45, 0x55, 0x47, 0x9f, 0xdf, 0x1c, 0x79, 0xfd, 0xc6, 0xe5, 0xd6, 0x08, 0x80,
    0x48, 0x54, 0x42, 0xe6, 0x66, 0xe9, 0x5c, 0xda, 0xdd, 0x9e, 0x33, 0xa1, 0xd8, 0x16, 0x44, 0xf4,
    0xd2, 0x37, 0x99, 0x00, 0x58, 0xef, 0x39, 0xc5, 0x2e, 0xc8, 0x13, 0x0f, 0x0e, 0x09, 0xa7, 0xb2,
    0x15, 0xa9, 0xba, 0xcf, 0xc4, 0x91, 0x3e, 0x5d, 0x22, 0x0c, 0x17, 0xde, 0x9b, 0x1a, 0x32, 0x68,
    0x1b, 0x49, 0x72, 0x8c, 0x6c, 0x85, 0xd0, 0x51, 0x05, 0xb6, 0x86, 0x96, 0x2b, 0xf8, 0xbd, 0x50,
    0xc1, 0x07, 0x6b, 0xd1, 0x7a, 0xbb, 0x7e, 0xfb, 0x1d, 0xad, 0x4e, 0x01, 0x4a, 0xfe, 0x3f, 0xd4,
    0xff, 0x38, 0x5b, 0x5f, 0x21, 0x57, 0xc0, 0xf3, 0x14, 0x34, 0xee, 0x3b, 0x2f, 0xce, 0xe0, 0x56,
    0x71, 0x27, 0x26, 0xc9, 0xc7, 0xb0, 0x93, 0x52, 0xe1, 0xcc, 0x94, 0x89, 0x92, 0x65, 0x6e, 0xb4,
    0x95, 0xdc, 0x8e, 0x19, 0x9c, 0x5e, 0xac, 0xa5, 0xe3, 0x7d, 0xec, 0x69, 0x6a, 0xd9, 0x31, 0x10,
    0x03, 0x02, 0x90, 0xfa, 0xf5, 0x2a, 0xe7, 0x28, 0xbe, 0x24, 0x25, 0xd7, 0xcb, 0xaa, 0x12, 0x82,
    0xe8, 0x00, 0x00, 0x00, 0x56, 0x00, 0x00, 0x00, 0xcd, 0x75, 0x38, 0x18, 0x42, 0x81, 0x99, 0x04,
    0xe1, 0x09, 0x3a, 0x17, 0xf1, 0x50, 0x87, 0xa1, 0x71, 0xec, 0x65, 0xfa, 0xb6, 0x0c, 0x0a, 0xc5,
    0xf7, 0x3f, 0xf0, 0x11, 0x8e, 0x95, 0xd2, 0xa4, 0x8d, 0xfd, 0x0d, 0x4c, 0x4d, 0x78, 0x56, 0x9d,
    0x6b, 0xe0, 0x83, 0xb5, 0xac, 0xd1, 0x4b, 0x3e, 0x08, 0xed, 0x62, 0x16, 0x9c, 0x60, 0x2b, 0x8c,
    0x2a, 0x27, 0xb9, 0x43, 0x2e, 0x68, 0xca, 0x90, 0xbf, 0x98, 0x8a, 0xc1, 0x57, 0xdd, 0x8f, 0x0f,
    0xb7, 0xcb, 0x1a, 0xa0, 0x52, 0x93, 0x01, 0x37, 0x23, 0x47, 0x5f, 0xe4, 0x54, 0xab, 0x4f, 0xc0,
    0xd0, 0x1f, 0x1b, 0xe6, 0x19, 0x3c, 0xa2, 0x96, 0x32, 0x31, 0xe8, 0xf6, 0x1c, 0xef, 0xfe, 0xad,
    0x30, 0xe5, 0x2d, 0xa9, 0x00, 0x1d, 0xb4, 0x69, 0x97, 0xbb, 0xd3, 0x44, 0x07, 0x49, 0x2c, 0xdf,
    0x9b, 0x40, 0xba, 0xf3, 0x86, 0x10, 0xae, 0x05, 0xf2, 0x4e, 0x29, 0x9f, 0x22, 0x7e, 0xdb, 0x13,
    0xc8, 0x88, 0x5c, 0xa8, 0x5d, 0x66, 0xb2, 0x02, 0x7b, 0x53, 0xbc, 0xc4, 0xd9, 0x91, 0xd8, 0x63,
    0x9a, 0x67, 0x77, 0x35, 0x6d, 0x46, 0xc7, 0x20, 0xf5, 0x06, 0x5b, 0x74, 0xd5, 0x0b, 0x82, 0x5a,
    0x51, 0x9e, 0x6a, 0xf8, 0xb3, 0xc2, 0xdc, 0xfb, 0xb1, 0xcc, 0x89, 0xde, 0x24, 0x6f, 0x85, 0x70,
    0x7d, 0x26, 0x21, 0xda, 0x7c, 0x55, 0xe9, 0xaf, 0xa7, 0xc6, 0xd7, 0xc9, 0x15, 0xe3, 0xd6, 0x59,
    0xff, 0xeb, 0xf4, 0x12, 0x80, 0x94, 0xa3, 0x72, 0x4a, 0x1e, 0x7a, 0x34, 0x25, 0x48, 0x41, 0x14,
    0x8b, 0xe7, 0xb8, 0x2f, 0xa6, 0xa5, 0xea, 0xfc, 0x61, 0xbd, 0x3b, 0x92, 0x36, 0x73, 0x33, 0x03,
    0xcf, 0xaa, 0x6e, 0x28, 0x6c, 0x64, 0x76, 0x3d, 0x58, 0xe2, 0xce, 0xb0, 0x5e, 0xbe, 0x39, 0xd4,
    0x84, 0x7f, 0x45, 0x0e, 0xf9, 0xee, 0xc3, 0x79, 0xe8, 0x00, 0x00, 0x00, 0x83, 0x00, 0x00, 0x00,
    0x34, 0x5b, 0xaf, 0x68, 0x9e, 0x58, 0xa4, 0x34, 0x9e, 0x03, 0xcb, 0x39, 0x58, 0xc7, 0x64, 0x6e,
    0x14, 0xcc, 0x40, 0x9f, 0x7c, 0x0c, 0xa6, 0xe6, 0xcf, 0x95, 0xe5, 0xc6, 0xd1, 0x4f, 0xa7, 0x2b,
    0x95, 0xfc, 0xe3, 0x43, 0x19, 0x0c, 0xa7, 0x69, 0x89, 0x0a, 0x60, 0x74, 0x12, 0x54, 0xc7, 0x07,
    0x22, 0xaa, 0xc9, 0xf1, 0xa7, 0x39, 0x7a, 0xbf, 0x3d, 0xcb, 0x32, 0xd9, 0x08, 0x9f, 0x10, 0x27,
    0x31, 0xc4, 0x93, 0x86, 0xca, 0x3e, 0x4e, 0xa5, 0xb5, 0xb8, 0xe5, 0xd8, 0x30, 0x9e, 0x95, 0x01,
    0xe8, 0x05, 0xa8, 0x15, 0x1e, 0x12, 0xf7, 0xd6, 0xe0, 0xb5, 0xc1, 0x3d, 0x9e, 0xb9, 0xf3, 0x73,
    0xff, 0x1e, 0x6d, 0x21, 0xcb, 0x1d, 0x1f, 0xeb, 0x83, 0x76, 0x2e, 0xa0, 0xf6, 0x12, 0x21, 0x00,
];

#[test]
pub fn test_cipher() {
    let n = BigUint::from_bytes_le(&PUBKEY_MODULUS);
    let e = BigUint::from(65537u32);
    let d = BigUint::from_bytes_le(&PRIV_EXPO);
    let primes = vec![
        BigUint::from_bytes_le(&PRIME1),
        BigUint::from_bytes_le(&PRIME2),
    ];

    let game_pk = RsaPrivateKey::from_components(n, e, d, primes).unwrap();
    let _game_pubk = game_pk.to_public_key();

    let mut msg = HANDSHAKE_MSG.to_vec();

    let pseudo_n = BigUint::from_bytes_le(&MODULUS_PSEUDO);
    let e = BigUint::from(0x10001u32);
    let pseudok = RsaPublicKey::new(pseudo_n, e).unwrap();
    let plain = BigUint::from_bytes_le(&msg[..128]);
    let enc = rsa::hazmat::rsa_encrypt(&pseudok, &plain).unwrap();
    msg[..128].fill(0);
    msg[..127].copy_from_slice(&enc.to_bytes_le()[..127]);

    assert_eq!(msg, AFTER_MOD);

    let mut out = vec![];
    for (i, block) in msg.chunks(128).enumerate() {
        let cipher = BigUint::from_bytes_le(block);
        let dec = rsa::hazmat::rsa_decrypt_and_check::<OsRng>(&game_pk, None, &cipher).unwrap();
        let dec = dec.to_bytes_le();
        println!("decrypted {i}: {:#?}", dec.hex_dump());
        out.extend_from_slice(&dec);
    }

    assert_eq!(AFTER_DECRYPT[..528], out[..528]);
}

#[test]
fn modulus_transform_matches_capture() {
    let mut msg = HANDSHAKE_MSG.to_vec();
    assert!(modulus_transform(&mut msg).is_ok());
    assert_eq!(msg, AFTER_MOD.to_vec());
}

#[test]
fn modulus_transform_keeps_tail() {
    let mut msg = vec![0x5au8; 200];
    modulus_transform(&mut msg).unwrap();
    assert_eq!(msg.len(), 200);
    assert_eq!(&msg[128..], &[0x5au8; 72][..]);
    assert_ne!(&msg[..128], &[0x5au8; 128][..]);
}

#[test]
fn modulus_transform_of_zero_is_zero() {
    // 0 to any power is 0.
    let mut msg = vec![0u8; 128];
    modulus_transform(&mut msg).unwrap();
    assert_eq!(msg, vec![0u8; 128]);
}

#[test]
fn modulus_transform_of_one_is_one() {
    let mut msg = vec![0u8; 130];
    msg[0] = 1;
    msg[129] = 7;
    modulus_transform(&mut msg).unwrap();
    let mut expect = vec![0u8; 130];
    expect[0] = 1;
    expect[129] = 7;
    assert_eq!(msg, expect);
}

fn captured_key() -> RsaKeyParts {
    RsaKeyParts {
        n: PUBKEY_MODULUS.to_vec(),
        e: vec![1, 0, 1],
        d: PRIV_EXPO.to_vec(),
        p: PRIME1.to_vec(),
        q: PRIME2.to_vec(),
    }
}

fn awaiting_server() -> CipherS {
    let n = BigUint::from_bytes_le(&PUBKEY_MODULUS);
    let game_pubk = RsaPublicKey::new(n, BigUint::from(65537u32)).unwrap();
    CipherS::ClientHandshakeReceived { my_key: captured_key(), game_pubk }
}

#[test]
fn server_answer_gives_the_captured_states() {
    let mut c = awaiting_server();
    let out = c.process_server_message(&HANDSHAKE_MSG).unwrap();
    assert_eq!(out.len(), 640);
    assert!(out.iter().all(|b| *b == 0));
    match c {
        CipherS::EncryptedChannel { srv_rx, srv_tx, .. } => {
            let rx = CustomRc4::from_bytes(&AFTER_DECRYPT[..264]);
            let tx = CustomRc4::from_bytes(&AFTER_DECRYPT[264..528]);
            assert_eq!(srv_rx.as_bytes(), rx.as_bytes());
            assert_eq!(srv_tx.as_bytes(), tx.as_bytes());
        },
        _ => panic!("the channel is not up"),
    }
}

#[test]
fn server_answer_of_zeros_is_too_short() {
    // Every block is zero before and after the transform and decrypts to
    // the single byte 0.
    let mut c = awaiting_server();
    let r = c.process_server_message(&[0u8; 640]);
    assert!(matches!(r, Err(CipherError::ShortPlaintext(5))));
    assert!(matches!(c, CipherS::ClientHandshakeReceived { .. }));
}

#[test]
fn server_answer_above_the_modulus_is_refused() {
    let mut msg = [0u8; 640];
    msg[128..].fill(0xff);
    let mut c = awaiting_server();
    assert!(matches!(c.process_server_message(&msg), Err(CipherError::Rsa(_))));
    assert!(matches!(c, CipherS::ClientHandshakeReceived { .. }));
}
