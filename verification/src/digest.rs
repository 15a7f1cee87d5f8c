//! The digest primitive: the hash algorithms that a transcript can be pinned
//! to, and a running digest over bytes fed to it piece by piece.
//!
//! The hashing itself is done by `ring`. What this module takes on trust
//! about `ring` is stated on the items that say so; everything else here is
//! proved from those statements.

use vstd::prelude::*;

verus! {

/// A hash algorithm.
#[allow(non_camel_case_types)]
#[derive(Clone, Copy, Debug, PartialEq, Eq, Structural)]
pub enum HashAlgorithm {
    SHA1,
    SHA256,
    SHA384,
    SHA512,
    SHA512_256,
}

impl HashAlgorithm {
    /// The length in bytes of a digest of this algorithm.
    pub open spec fn output_len(self) -> nat {
        match self {
            HashAlgorithm::SHA1 => 20,
            HashAlgorithm::SHA256 => 32,
            HashAlgorithm::SHA384 => 48,
            HashAlgorithm::SHA512 => 64,
            HashAlgorithm::SHA512_256 => 32,
        }
    }
}

/// The most bytes that one digest can be taken over: the length of the input
/// in bits has to fit in 64 bits.
pub const MAX_INPUT_LEN: u64 = 0x1fff_ffff_ffff_ffff;

/// `ring::digest::Context`, a digest in progress. Nothing of its inside is
/// known here.
#[verifier::external_type_specification]
#[verifier::external_body]
pub struct ExContext(ring::digest::Context);

/// The bytes that have been fed to a `ring::digest::Context` since it was
/// made, in the order in which they were fed.
pub uninterp spec fn context_input(ctx: ring::digest::Context) -> Seq<u8>;

/// The algorithm that a `ring::digest::Context` was made for.
pub uninterp spec fn context_algorithm(ctx: ring::digest::Context) -> HashAlgorithm;

/// The digest of `input` under `alg`: what `ring::digest::Context::finish`
/// returns for a context of that algorithm that was fed `input`.
pub uninterp spec fn digest_of(alg: HashAlgorithm, input: Seq<u8>) -> Seq<u8>;

/// Calls `ring::digest::Context::new` with the algorithm of `ring` that
/// `alg` names. Taken on trust: the new context is for that algorithm and has
/// been fed nothing.
#[verifier::external_body]
fn context_new(alg: HashAlgorithm) -> (ctx: ring::digest::Context)
    ensures
        context_algorithm(ctx) == alg,
        context_input(ctx) == Seq::<u8>::empty(),
{
    ring::digest::Context::new(
        match alg {
            HashAlgorithm::SHA1 => &ring::digest::SHA1_FOR_LEGACY_USE_ONLY,
            HashAlgorithm::SHA256 => &ring::digest::SHA256,
            HashAlgorithm::SHA384 => &ring::digest::SHA384,
            HashAlgorithm::SHA512 => &ring::digest::SHA512,
            HashAlgorithm::SHA512_256 => &ring::digest::SHA512_256,
        },
    )
}

/// Calls `ring::digest::Context::update`. Taken on trust: the context has
/// then been fed `data` after what it had been fed before, and is for the
/// algorithm it was for. `ring` counts the input in 64 bits and panics when
/// the count overflows, so the total is kept within `MAX_INPUT_LEN`; within
/// that bound it does not panic.
#[verifier::external_body]
fn context_update(ctx: &mut ring::digest::Context, data: &[u8])
    requires
        context_input(*old(ctx)).len() + data@.len() <= MAX_INPUT_LEN,
    ensures
        context_algorithm(*final(ctx)) == context_algorithm(*old(ctx)),
        context_input(*final(ctx)) == context_input(*old(ctx)) + data@,
    no_unwind
{
    ctx.update(data)
}

/// Calls `clone` on a `ring::digest::Context`. Taken on trust: the copy is
/// for the same algorithm and has been fed the same bytes.
#[verifier::external_body]
fn context_clone(ctx: &ring::digest::Context) -> (copy: ring::digest::Context)
    ensures
        context_algorithm(copy) == context_algorithm(*ctx),
        context_input(copy) == context_input(*ctx),
{
    ctx.clone()
}

/// Calls `ring::digest::Context::finish` and copies the bytes of the digest
/// that it returns. Taken on trust: the result is the digest, under the
/// context's algorithm, of what the context was fed, and has the length that
/// `ring` gives for that algorithm. `finish` panics when the input is longer
/// than `MAX_INPUT_LEN`.
#[verifier::external_body]
fn context_finish(ctx: ring::digest::Context) -> (out: Vec<u8>)
    requires
        context_input(ctx).len() <= MAX_INPUT_LEN,
    ensures
        out@ == digest_of(context_algorithm(ctx), context_input(ctx)),
        out@.len() == context_algorithm(ctx).output_len(),
{
    ctx.finish().as_ref().to_vec()
}

/// Feeds `data`, of length `n`, to `inner` and adds `n` to the count `len`.
fn feed(inner: &mut ring::digest::Context, len: &mut u64, data: &[u8], n: u64)
    requires
        n == data@.len(),
        context_input(*old(inner)).len() == *old(len),
        *old(len) + data@.len() <= MAX_INPUT_LEN,
    ensures
        context_algorithm(*final(inner)) == context_algorithm(*old(inner)),
        context_input(*final(inner)) == context_input(*old(inner)) + data@,
        *final(len) == *old(len) + data@.len(),
    no_unwind
{
    context_update(inner, data);
    *len = *len + n;
}

/// A running digest: an algorithm, and the bytes fed so far.
pub struct DigestContext {
    alg: HashAlgorithm,
    len: u64,
    inner: ring::digest::Context,
}

impl DigestContext {
    #[verifier::type_invariant]
    spec fn consistent(self) -> bool {
        &&& context_algorithm(self.inner) == self.alg
        &&& context_input(self.inner).len() == self.len
        &&& self.len <= MAX_INPUT_LEN
    }

    /// The algorithm of this digest.
    pub closed spec fn spec_algorithm(&self) -> HashAlgorithm {
        self.alg
    }

    /// The bytes fed so far, in order.
    pub closed spec fn input(self) -> Seq<u8> {
        context_input(self.inner)
    }

    /// A digest under `alg` that has been fed nothing.
    pub fn new(alg: HashAlgorithm) -> (ctx: DigestContext)
        ensures
            ctx.spec_algorithm() == alg,
            ctx.input() == Seq::<u8>::empty(),
    {
        DigestContext { alg, len: 0, inner: context_new(alg) }
    }

    /// The algorithm of this digest.
    #[verifier::when_used_as_spec(spec_algorithm)]
    pub fn algorithm(&self) -> (alg: HashAlgorithm)
        ensures
            alg == self.spec_algorithm(),
    {
        self.alg
    }

    /// How many more bytes this digest can be fed.
    pub fn room(&self) -> (n: u64)
        ensures
            n == MAX_INPUT_LEN - self.input().len(),
            self.input().len() <= MAX_INPUT_LEN,
    {
        proof {
            use_type_invariant(self);
        }
        MAX_INPUT_LEN - self.len
    }

    /// Feeds `data` to the digest.
    pub fn update(&mut self, data: &[u8])
        requires
            old(self).input().len() + data@.len() <= MAX_INPUT_LEN,
        ensures
            final(self).spec_algorithm() == old(self).spec_algorithm(),
            final(self).input() == old(self).input() + data@,
    {
        proof {
            use_type_invariant(&*self);
        }
        let n = data.len() as u64;
        feed(&mut self.inner, &mut self.len, data, n);
    }

    /// Ends the digest and returns its value.
    pub fn finish(self) -> (out: Vec<u8>)
        ensures
            out@ == digest_of(self.spec_algorithm(), self.input()),
            out@.len() == self.spec_algorithm().output_len(),
    {
        proof {
            use_type_invariant(&self);
        }
        context_finish(self.inner)
    }
}

impl Clone for DigestContext {
    /// A second digest that stands where this one stands. Feeding either
    /// leaves the other as it is.
    fn clone(&self) -> (copy: DigestContext)
        ensures
            copy.spec_algorithm() == self.spec_algorithm(),
            copy.input() == self.input(),
    {
        proof {
            use_type_invariant(self);
        }
        DigestContext { alg: self.alg, len: self.len, inner: context_clone(&self.inner) }
    }
}

} // verus!
