//! The framing of handshake messages.
//!
//! A handshake message is a type, a 24-bit length and a body. What the body
//! means is the business of the layers above; here it is carried as bytes.

use super::base::Payload;
use super::codec::{be24, encode_u24, from_be24, read_u24, Reader};
use super::enums::{HandshakeType, ProtocolVersion};
use vstd::prelude::*;
use vstd::slice::slice_to_vec;

verus! {

/// A handshake message: its type and its body.
#[derive(Debug)]
pub struct HandshakeMessagePayload {
    pub typ: HandshakeType,
    pub payload: Payload,
}

/// What a handshake message holds.
pub struct HandshakeMessagePayloadView {
    pub typ: HandshakeType,
    pub payload: Seq<u8>,
}

impl View for HandshakeMessagePayload {
    type V = HandshakeMessagePayloadView;

    open spec fn view(&self) -> HandshakeMessagePayloadView {
        HandshakeMessagePayloadView { typ: self.typ, payload: self.payload@ }
    }
}

impl Clone for HandshakeMessagePayload {
    fn clone(&self) -> (out: Self)
        ensures
            out@ == self@,
    {
        HandshakeMessagePayload { typ: self.typ, payload: self.payload.clone() }
    }
}

impl HandshakeMessagePayloadView {
    /// The bytes of this message: the type, the low 24 bits of the body's
    /// length, and the body.
    pub open spec fn wire(self) -> Seq<u8> {
        seq![self.typ@] + be24((self.payload.len() % 0x100_0000) as u32) + self.payload
    }

    /// The message at the front of `bytes`: a type, a length, and as many
    /// bytes as the length says.
    pub open spec fn parse(bytes: Seq<u8>) -> Option<Self> {
        if bytes.len() < 4 {
            None
        } else {
            let len = from_be24(bytes.skip(1));
            if bytes.len() < 4 + len {
                None
            } else {
                Some(
                    HandshakeMessagePayloadView {
                        typ: HandshakeType::spec_from_u8(bytes[0]),
                        payload: bytes.subrange(4, 4 + len),
                    },
                )
            }
        }
    }

    /// How many bytes of `bytes` reading a message consumes: the whole
    /// message when there is one, else the fields that were complete.
    pub open spec fn consumed(bytes: Seq<u8>) -> nat {
        if bytes.len() < 1 {
            0
        } else if bytes.len() < 4 {
            1
        } else {
            match Self::parse(bytes) {
                Some(m) => 4 + m.payload.len(),
                None => 4,
            }
        }
    }

    /// The message that stands for a transcript whose hash is `hash`.
    pub open spec fn handshake_hash(hash: Seq<u8>) -> Self {
        HandshakeMessagePayloadView { typ: HandshakeType::MessageHash, payload: hash }
    }

    /// The message that announces new keys without asking the peer for its
    /// own.
    pub open spec fn key_update_notify() -> Self {
        HandshakeMessagePayloadView { typ: HandshakeType::KeyUpdate, payload: seq![0u8] }
    }
}

impl HandshakeMessagePayload {
    /// Appends the bytes of this message.
    pub fn encode(&self, bytes: &mut Vec<u8>)
        ensures
            final(bytes)@ == old(bytes)@ + self@.wire(),
    {
        self.typ.encode(bytes);
        encode_u24((self.payload.0.len() % 0x100_0000) as u32, bytes);
        self.payload.encode(bytes);
        assert(bytes@ =~= old(bytes)@ + self@.wire());
    }

    /// The bytes of this message.
    pub fn get_encoding(&self) -> (bytes: Vec<u8>)
        ensures
            bytes@ == self@.wire(),
    {
        let mut bytes = Vec::new();
        self.encode(&mut bytes);
        assert(bytes@ =~= self@.wire());
        bytes
    }

    /// Reads a message, or nothing when the input is too short for its
    /// header or for the length that the header gives. The framing is the
    /// same under every protocol version.
    pub fn read_version(r: &mut Reader, _vers: ProtocolVersion) -> (out: Option<Self>)
        ensures
            match out {
                Some(m) => HandshakeMessagePayloadView::parse(old(r).remaining()) == Some(m@),
                None => HandshakeMessagePayloadView::parse(old(r).remaining()) is None,
            },
            final(r).advanced(*old(r), HandshakeMessagePayloadView::consumed(old(r).remaining())),
    {
        let ghost start = *r;
        let ghost input = r.remaining();
        let typ = match HandshakeType::read(r) {
            Some(t) => t,
            None => {
                return None;
            },
        };
        let ghost after_typ = *r;
        let len = match read_u24(r) {
            Some(l) => l,
            None => {
                return None;
            },
        };
        let ghost after_len = *r;
        proof {
            after_len.lemma_advanced_twice(after_typ, start, 1, 3);
        }
        let mut sub = match r.sub(len as usize) {
            Some(s) => s,
            None => {
                return None;
            },
        };
        let payload = Payload::read(&mut sub);
        proof {
            r.lemma_advanced_twice(after_len, start, 4, len as nat);
            assert(payload@ =~= input.subrange(4, 4 + len));
        }
        Some(HandshakeMessagePayload { typ, payload })
    }

    /// The message that stands for a transcript whose hash is `hash`.
    pub fn build_handshake_hash(hash: &[u8]) -> (m: HandshakeMessagePayload)
        ensures
            m@ == HandshakeMessagePayloadView::handshake_hash(hash@),
    {
        HandshakeMessagePayload {
            typ: HandshakeType::MessageHash,
            payload: Payload::new(slice_to_vec(hash)),
        }
    }

    /// The message that announces new keys without asking the peer for its
    /// own.
    pub fn build_key_update_notify() -> (m: HandshakeMessagePayload)
        ensures
            m@ == HandshakeMessagePayloadView::key_update_notify(),
    {
        let mut body = Vec::new();
        body.push(0u8);
        assert(body@ =~= seq![0u8]);
        HandshakeMessagePayload { typ: HandshakeType::KeyUpdate, payload: Payload::new(body) }
    }
}

} // verus!
