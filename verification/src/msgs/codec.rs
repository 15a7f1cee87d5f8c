//! Reading and writing the primitive fields of the wire format.

use vstd::prelude::*;
use vstd::slice::slice_subrange;

verus! {

/// A cursor over a borrowed byte buffer.
///
/// The bytes in front of the cursor have been consumed; the bytes from the
/// cursor to the end of the buffer are still to be read.
pub struct Reader<'a> {
    buf: &'a [u8],
    offs: usize,
}

impl<'a> Reader<'a> {
    #[verifier::type_invariant]
    spec fn in_bounds(self) -> bool {
        self.offs <= self.buf@.len()
    }

    /// The whole underlying buffer.
    pub closed spec fn buffer(self) -> Seq<u8> {
        self.buf@
    }

    /// How many bytes have been consumed.
    pub closed spec fn position(self) -> nat {
        self.offs as nat
    }

    /// The bytes that have not been consumed yet.
    pub open spec fn remaining(self) -> Seq<u8> {
        self.buffer().skip(self.position() as int)
    }

    /// This reader is `before` moved forward by `n` bytes over the same
    /// buffer.
    pub open spec fn advanced(self, before: Self, n: nat) -> bool {
        &&& self.buffer() == before.buffer()
        &&& self.position() == before.position() + n
        &&& n <= before.remaining().len()
        &&& self.remaining() == before.remaining().skip(n as int)
    }

    /// Moving forward by `m` bytes and then by `n` is moving forward by
    /// `m + n`.
    pub proof fn lemma_advanced_twice(self, mid: Self, before: Self, m: nat, n: nat)
        requires
            mid.advanced(before, m),
            self.advanced(mid, n),
        ensures
            self.advanced(before, m + n),
    {
        assert(before.remaining().skip(m as int).skip(n as int) =~= before.remaining().skip(
            (m + n) as int,
        ));
    }

    /// A reader at the start of `bytes`.
    pub fn init(bytes: &'a [u8]) -> (r: Reader<'a>)
        ensures
            r.buffer() == bytes@,
            r.position() == 0,
            r.remaining() == bytes@,
    {
        assert(bytes@.skip(0) =~= bytes@);
        Reader { buf: bytes, offs: 0 }
    }

    /// Consumes and returns everything that is left.
    pub fn rest(&mut self) -> (out: &'a [u8])
        ensures
            out@ == old(self).remaining(),
            final(self).advanced(*old(self), old(self).remaining().len()),
            final(self).position() == old(self).buffer().len(),
    {
        proof {
            use_type_invariant(&*self);
        }
        let out = slice_subrange(self.buf, self.offs, self.buf.len());
        self.offs = self.buf.len();
        assert(self.remaining() =~= old(self).remaining().skip(out@.len() as int));
        out
    }

    /// Consumes and returns the next `len` bytes, or consumes nothing and
    /// returns `None` when fewer than `len` bytes are left.
    pub fn take(&mut self, len: usize) -> (out: Option<&'a [u8]>)
        ensures
            len <= old(self).remaining().len() ==> {
                &&& out is Some
                &&& out->0@ == old(self).remaining().take(len as int)
                &&& final(self).advanced(*old(self), len as nat)
            },
            len > old(self).remaining().len() ==> {
                &&& out is None
                &&& final(self).advanced(*old(self), 0)
            },
    {
        proof {
            use_type_invariant(&*self);
        }
        if self.buf.len() - self.offs < len {
            assert(self.remaining() =~= self.remaining().skip(0));
            return None;
        }
        let current = self.offs;
        self.offs = current + len;
        let out = slice_subrange(self.buf, current, current + len);
        assert(self.remaining() =~= old(self).remaining().skip(len as int));
        assert(out@ =~= old(self).remaining().take(len as int));
        Some(out)
    }

    /// Whether any byte is left to read.
    pub fn any_left(&self) -> (b: bool)
        ensures
            b == (self.remaining().len() > 0),
    {
        proof {
            use_type_invariant(self);
        }
        self.offs < self.buf.len()
    }

    /// The number of bytes left to read.
    pub fn left(&self) -> (n: usize)
        ensures
            n == self.remaining().len(),
    {
        proof {
            use_type_invariant(self);
        }
        self.buf.len() - self.offs
    }

    /// The number of bytes consumed so far.
    pub fn used(&self) -> (n: usize)
        ensures
            n == self.position(),
            n <= self.buffer().len(),
    {
        proof {
            use_type_invariant(self);
        }
        self.offs
    }

    /// Consumes the next `len` bytes and returns a reader over exactly those
    /// bytes, or consumes nothing and returns `None` when fewer are left.
    pub fn sub(&mut self, len: usize) -> (out: Option<Reader<'a>>)
        ensures
            len <= old(self).remaining().len() ==> {
                &&& out is Some
                &&& out->0.buffer() == old(self).remaining().take(len as int)
                &&& out->0.position() == 0
                &&& out->0.remaining() == old(self).remaining().take(len as int)
                &&& final(self).advanced(*old(self), len as nat)
            },
            len > old(self).remaining().len() ==> {
                &&& out is None
                &&& final(self).advanced(*old(self), 0)
            },
    {
        match self.take(len) {
            Some(bytes) => Some(Reader::init(bytes)),
            None => None,
        }
    }
}

/// The two bytes of `v`, most significant first.
pub open spec fn be16(v: u16) -> Seq<u8> {
    seq![(v / 256) as u8, (v % 256) as u8]
}

/// The low 24 bits of `v` as three bytes, most significant first.
pub open spec fn be24(v: u32) -> Seq<u8> {
    seq![((v / 65536) % 256) as u8, ((v / 256) % 256) as u8, (v % 256) as u8]
}

/// The number that two leading big-endian bytes of `bytes` stand for.
pub open spec fn from_be16(bytes: Seq<u8>) -> u16
    recommends
        bytes.len() >= 2,
{
    (bytes[0] * 256 + bytes[1]) as u16
}

/// The number that three leading big-endian bytes of `bytes` stand for.
pub open spec fn from_be24(bytes: Seq<u8>) -> u32
    recommends
        bytes.len() >= 3,
{
    (bytes[0] * 65536 + bytes[1] * 256 + bytes[2]) as u32
}

/// Appends one byte.
pub fn encode_u8(v: u8, bytes: &mut Vec<u8>)
    ensures
        final(bytes)@ == old(bytes)@.push(v),
{
    bytes.push(v);
}

/// Appends `v` as two big-endian bytes.
pub fn encode_u16(v: u16, bytes: &mut Vec<u8>)
    ensures
        final(bytes)@ == old(bytes)@ + be16(v),
{
    bytes.push((v / 256) as u8);
    bytes.push((v % 256) as u8);
}

/// Appends the low 24 bits of `v` as three big-endian bytes.
pub fn encode_u24(v: u32, bytes: &mut Vec<u8>)
    ensures
        final(bytes)@ == old(bytes)@ + be24(v),
{
    bytes.push(((v / 65536) % 256) as u8);
    bytes.push(((v / 256) % 256) as u8);
    bytes.push((v % 256) as u8);
}

/// Appends a copy of `data`.
pub fn encode_bytes(data: &[u8], bytes: &mut Vec<u8>)
    ensures
        final(bytes)@ == old(bytes)@ + data@,
{
    bytes.extend_from_slice(data);
}

/// Reads one byte, or nothing when none is left.
pub fn read_u8(r: &mut Reader) -> (out: Option<u8>)
    ensures
        old(r).remaining().len() >= 1 ==> out == Some(old(r).remaining()[0]) && final(r).advanced(
            *old(r),
            1,
        ),
        old(r).remaining().len() < 1 ==> out is None && final(r).advanced(*old(r), 0),
{
    match r.take(1) {
        Some(b) => Some(b[0]),
        None => None,
    }
}

/// Reads a big-endian 16-bit number, or nothing when fewer than two bytes
/// are left.
pub fn read_u16(r: &mut Reader) -> (out: Option<u16>)
    ensures
        old(r).remaining().len() >= 2 ==> out == Some(from_be16(old(r).remaining()))
            && final(r).advanced(*old(r), 2),
        old(r).remaining().len() < 2 ==> out is None && final(r).advanced(*old(r), 0),
{
    match r.take(2) {
        Some(b) => {
            let hi: u16 = b[0] as u16;
            let lo: u16 = b[1] as u16;
            Some(hi * 256 + lo)
        },
        None => None,
    }
}

/// Reads a big-endian 24-bit number, or nothing when fewer than three bytes
/// are left.
pub fn read_u24(r: &mut Reader) -> (out: Option<u32>)
    ensures
        old(r).remaining().len() >= 3 ==> out == Some(from_be24(old(r).remaining()))
            && final(r).advanced(*old(r), 3),
        old(r).remaining().len() < 3 ==> out is None && final(r).advanced(*old(r), 0),
{
    match r.take(3) {
        Some(b) => {
            let b0: u32 = b[0] as u32;
            let b1: u32 = b[1] as u32;
            let b2: u32 = b[2] as u32;
            Some(b0 * 65536 + b1 * 256 + b2)
        },
        None => None,
    }
}

/// Reading back what `encode_u16` wrote gives the number again.
pub proof fn lemma_be16_round_trip(v: u16)
    ensures
        be16(v).len() == 2,
        from_be16(be16(v)) == v,
{
}

/// Reading back what `encode_u24` wrote gives the low 24 bits again.
pub proof fn lemma_be24_round_trip(v: u32)
    ensures
        be24(v).len() == 3,
        from_be24(be24(v)) == v % 0x100_0000,
{
}

} // verus!
