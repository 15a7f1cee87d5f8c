//! Two pieces of a TLS protocol engine: the running hash of the handshake
//! transcript, and the framing and classification of records on the wire.

pub mod digest;
pub mod error;
pub mod hash_hs;
pub mod msgs;
