//! The payload of a change-cipher-spec record.

use super::codec::{encode_u8, read_u8, Reader};
use vstd::prelude::*;

verus! {

/// The one message of the change-cipher-spec protocol. It carries nothing.
#[derive(Clone, Copy, Debug, PartialEq, Eq, Structural)]
pub struct ChangeCipherSpecPayload;

impl ChangeCipherSpecPayload {
    /// The one byte that the message is written as.
    pub open spec fn wire() -> Seq<u8> {
        seq![1u8]
    }

    /// The message at the front of `bytes`: any one byte is taken for it.
    pub open spec fn parse(bytes: Seq<u8>) -> Option<Self> {
        if bytes.len() < 1 {
            None
        } else {
            Some(ChangeCipherSpecPayload)
        }
    }

    /// How many bytes of `bytes` reading the message consumes.
    pub open spec fn consumed(bytes: Seq<u8>) -> nat {
        if bytes.len() < 1 {
            0
        } else {
            1
        }
    }

    /// Appends the byte 1.
    pub fn encode(&self, bytes: &mut Vec<u8>)
        ensures
            final(bytes)@ == old(bytes)@ + Self::wire(),
    {
        encode_u8(1, bytes);
        assert(bytes@ =~= old(bytes)@ + Self::wire());
    }

    /// Consumes one byte, whatever it holds, or reads nothing when none is
    /// left.
    pub fn read(r: &mut Reader) -> (out: Option<Self>)
        ensures
            out == Self::parse(old(r).remaining()),
            final(r).advanced(*old(r), Self::consumed(old(r).remaining())),
    {
        match read_u8(r) {
            Some(_) => Some(ChangeCipherSpecPayload {  }),
            None => None,
        }
    }
}

} // verus!
