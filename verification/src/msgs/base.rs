//! Payloads whose contents this layer does not interpret.

use super::codec::{encode_bytes, Reader};
use vstd::prelude::*;
use vstd::slice::slice_to_vec;

verus! {

/// An owned run of bytes, written to the wire as it is, with no length in
/// front of it.
#[derive(Debug)]
pub struct Payload(pub Vec<u8>);

impl View for Payload {
    type V = Seq<u8>;

    open spec fn view(&self) -> Seq<u8> {
        self.0@
    }
}

impl Clone for Payload {
    fn clone(&self) -> (out: Self)
        ensures
            out@ == self@,
    {
        Payload(self.0.clone())
    }
}

impl Payload {
    /// A payload that owns `bytes`.
    pub fn new(bytes: Vec<u8>) -> (p: Payload)
        ensures
            p@ == bytes@,
    {
        Payload(bytes)
    }

    /// A payload of no bytes.
    pub fn empty() -> (p: Payload)
        ensures
            p@ == Seq::<u8>::empty(),
    {
        Payload(Vec::new())
    }

    /// Takes everything that is left in `r`.
    pub fn read(r: &mut Reader) -> (p: Payload)
        ensures
            p@ == old(r).remaining(),
            final(r).advanced(*old(r), old(r).remaining().len()),
    {
        Payload(slice_to_vec(r.rest()))
    }

    /// Appends the bytes of this payload.
    pub fn encode(&self, bytes: &mut Vec<u8>)
        ensures
            final(bytes)@ == old(bytes)@ + self@,
    {
        encode_bytes(self.0.as_slice(), bytes);
    }
}

} // verus!
