//! A stateless codec for the fixed 20-byte TCP header: flag sets, byte-exact
//! encoding and decoding, the ones'-complement segment checksum and a builder
//! that finalises the checksum.
pub mod checksum;
pub mod connection;
pub mod error;
pub mod flags;
pub mod tcp;
pub mod tcp_flags;
pub mod tcp_headers;
pub mod text;
