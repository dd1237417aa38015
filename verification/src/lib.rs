//! Protocol reverse-engineering library for the Royal Quest game protocol:
//! the RC4-like stream cipher, the tag-prefixed binary element format and
//! the packet framing and filtering rules.
pub mod rc4;
pub mod cipher;
pub mod ring;
pub mod le;
pub mod text;
pub mod rqode;
pub mod rqode_binrw;
pub mod mitm;
pub mod packet_view;
pub mod mitm_gui;
pub mod protocol;
pub mod protocol_dump;
pub mod fmt_num;
pub mod dump;
pub mod ptrace;
pub mod server_db;
pub mod server_shard;
pub mod server_state;
pub mod server_login;
pub mod server_datamap;
pub mod server_handler;
pub mod server_cli;
pub mod server_conn;
pub mod server_world;
