//! The payload of a heartbeat record.

use super::base::Payload;
use super::codec::{be16, encode_u16, from_be16, read_u16, Reader};
use super::enums::HeartbeatMessageType;
use vstd::prelude::*;

verus! {

/// A heartbeat message: a request or a response, and the bytes to echo.
#[derive(Debug)]
pub struct HeartbeatPayload {
    pub typ: HeartbeatMessageType,
    pub payload: Payload,
}

/// What a heartbeat message holds.
pub struct HeartbeatPayloadView {
    pub typ: HeartbeatMessageType,
    pub payload: Seq<u8>,
}

impl View for HeartbeatPayload {
    type V = HeartbeatPayloadView;

    open spec fn view(&self) -> HeartbeatPayloadView {
        HeartbeatPayloadView { typ: self.typ, payload: self.payload@ }
    }
}

impl Clone for HeartbeatPayload {
    fn clone(&self) -> (out: Self)
        ensures
            out@ == self@,
    {
        HeartbeatPayload { typ: self.typ, payload: self.payload.clone() }
    }
}

impl HeartbeatPayloadView {
    /// The bytes of this message: the type, the low 16 bits of the payload's
    /// length, and the payload.
    pub open spec fn wire(self) -> Seq<u8> {
        seq![self.typ@] + be16((self.payload.len() % 0x1_0000) as u16) + self.payload
    }

    /// The message at the front of `bytes`: a type, a length, and as many
    /// bytes as the length says.
    pub open spec fn parse(bytes: Seq<u8>) -> Option<Self> {
        if bytes.len() < 3 {
            None
        } else {
            let len = from_be16(bytes.skip(1));
            if bytes.len() < 3 + len {
                None
            } else {
                Some(
                    HeartbeatPayloadView {
                        typ: HeartbeatMessageType::spec_from_u8(bytes[0]),
                        payload: bytes.subrange(3, 3 + len),
                    },
                )
            }
        }
    }

    /// How many bytes of `bytes` reading a message consumes: the whole
    /// message when there is one, else the fields that were complete.
    pub open spec fn consumed(bytes: Seq<u8>) -> nat {
        if bytes.len() < 1 {
            0
        } else if bytes.len() < 3 {
            1
        } else {
            match Self::parse(bytes) {
                Some(m) => 3 + m.payload.len(),
                None => 3,
            }
        }
    }
}

impl HeartbeatPayload {
    /// Appends the bytes of this message.
    pub fn encode(&self, bytes: &mut Vec<u8>)
        ensures
            final(bytes)@ == old(bytes)@ + self@.wire(),
    {
        self.typ.encode(bytes);
        encode_u16((self.payload.0.len() % 0x1_0000) as u16, bytes);
        self.payload.encode(bytes);
        assert(bytes@ =~= old(bytes)@ + self@.wire());
    }

    /// Reads a message, or nothing when the input is too short for its
    /// header or for the length that the header gives.
    pub fn read(r: &mut Reader) -> (out: Option<Self>)
        ensures
            match out {
                Some(m) => HeartbeatPayloadView::parse(old(r).remaining()) == Some(m@),
                None => HeartbeatPayloadView::parse(old(r).remaining()) is None,
            },
            final(r).advanced(*old(r), HeartbeatPayloadView::consumed(old(r).remaining())),
    {
        let ghost start = *r;
        let ghost input = r.remaining();
        let typ = match HeartbeatMessageType::read(r) {
            Some(t) => t,
            None => {
                return None;
            },
        };
        let ghost after_typ = *r;
        let len = match read_u16(r) {
            Some(l) => l,
            None => {
                return None;
            },
        };
        let ghost after_len = *r;
        proof {
            after_len.lemma_advanced_twice(after_typ, start, 1, 2);
        }
        let mut sub = match r.sub(len as usize) {
            Some(s) => s,
            None => {
                return None;
            },
        };
        let payload = Payload::read(&mut sub);
        proof {
            r.lemma_advanced_twice(after_len, start, 3, len as nat);
            assert(payload@ =~= input.subrange(3, 3 + len));
        }
        Some(HeartbeatPayload { typ, payload })
    }
}

} // verus!
