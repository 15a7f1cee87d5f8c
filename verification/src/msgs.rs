//! The message layer: byte-level codecs and the record types built from them.

pub mod alert;
pub mod base;
pub mod ccs;
pub mod codec;
pub mod enums;
pub mod handshake;
pub mod heartbeat;
pub mod message;
