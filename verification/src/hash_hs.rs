//! The running hash of the handshake transcript.
//!
//! Every handshake message that is sent or received goes into the
//! transcript. Until the hash algorithm is known the bytes are buffered; from
//! then on they are fed to a running digest. Where the client may have to
//! prove its identity the bytes are kept as well, for the signature is made
//! over the bytes themselves.

use crate::digest::{digest_of, DigestContext, HashAlgorithm, MAX_INPUT_LEN};
use crate::msgs::handshake::{HandshakeMessagePayload, HandshakeMessagePayloadView};
use crate::msgs::message::{Message, MessagePayload, MessagePayloadView, MessageView};
use vstd::prelude::*;

verus! {

/// The state of a transcript hash.
pub struct HandshakeHashView {
    /// The algorithm that the hash was started with, once it was.
    pub algorithm: Option<HashAlgorithm>,
    /// The bytes fed to the running digest. Empty until the hash is started.
    pub hashed: Seq<u8>,
    /// Whether the bytes of the transcript are kept.
    pub client_auth_enabled: bool,
    /// The bytes held back: the whole transcript until the hash is started,
    /// and whatever was added while the bytes were kept.
    pub buffer: Seq<u8>,
    /// A fixed value that is given out in place of the hash.
    pub override_buffer: Option<Seq<u8>>,
}

/// The bytes of the handshake message that stands for a transcript whose
/// hash is `hash`.
pub open spec fn handshake_hash_encoding(hash: Seq<u8>) -> Seq<u8> {
    HandshakeMessagePayloadView::handshake_hash(hash).wire()
}

/// All of `chunks`, one after the other.
pub open spec fn concat(chunks: Seq<Seq<u8>>) -> Seq<u8>
    decreases chunks.len(),
{
    if chunks.len() == 0 {
        Seq::empty()
    } else {
        concat(chunks.drop_last()) + chunks.last()
    }
}

impl HandshakeHashView {
    /// What holds of every transcript hash at all times. Before the hash is
    /// started nothing has been fed to the digest. Once it is started and the
    /// bytes are not kept, the buffer is empty. Neither the digest nor the
    /// buffer holds more than one digest can be taken over.
    pub open spec fn inv(self) -> bool {
        &&& self.algorithm is None ==> self.hashed.len() == 0
        &&& self.algorithm is Some && !self.client_auth_enabled ==> self.buffer.len() == 0
        &&& self.hashed.len() <= MAX_INPUT_LEN
        &&& self.buffer.len() <= MAX_INPUT_LEN
    }

    /// A transcript with nothing in it.
    pub open spec fn new() -> Self {
        HandshakeHashView {
            algorithm: None,
            hashed: Seq::empty(),
            client_auth_enabled: false,
            buffer: Seq::empty(),
            override_buffer: None,
        }
    }

    /// A transcript with nothing in it, whose hash is given out as
    /// `static_buffer`.
    pub open spec fn new_override(static_buffer: Seq<u8>) -> Self {
        HandshakeHashView { override_buffer: Some(static_buffer), ..Self::new() }
    }

    /// From now on the bytes are kept.
    pub open spec fn set_client_auth_enabled(self) -> Self {
        HandshakeHashView { client_auth_enabled: true, ..self }
    }

    /// The bytes are no longer kept, and those that were are dropped.
    pub open spec fn abandon_client_auth(self) -> Self {
        HandshakeHashView { client_auth_enabled: false, buffer: Seq::empty(), ..self }
    }

    /// Whether the hash can be started with `alg`: it has not been started,
    /// or it was started with `alg`.
    pub open spec fn accepts(self, alg: HashAlgorithm) -> bool {
        self.algorithm is None || self.algorithm == Some(alg)
    }

    /// The hash is started with `alg`: the digest is fed what was buffered,
    /// and the buffer is dropped unless the bytes are kept. A hash that was
    /// started before stays as it is.
    pub open spec fn start_hash(self, alg: HashAlgorithm) -> Self {
        if self.algorithm is Some {
            self
        } else {
            HandshakeHashView {
                algorithm: Some(alg),
                hashed: self.buffer,
                buffer: if self.client_auth_enabled {
                    self.buffer
                } else {
                    Seq::empty()
                },
                ..self
            }
        }
    }

    /// Whether `len` more bytes can be taken in.
    pub open spec fn can_absorb(self, len: nat) -> bool {
        &&& self.hashed.len() + len <= MAX_INPUT_LEN
        &&& self.buffer.len() + len <= MAX_INPUT_LEN
    }

    /// `bytes` are taken in: into the digest if the hash is started, and
    /// into the buffer if it is not started or the bytes are kept.
    pub open spec fn update_raw(self, bytes: Seq<u8>) -> Self {
        HandshakeHashView {
            hashed: if self.algorithm is Some {
                self.hashed + bytes
            } else {
                self.hashed
            },
            buffer: if self.algorithm is None || self.client_auth_enabled {
                self.buffer + bytes
            } else {
                self.buffer
            },
            ..self
        }
    }

    /// Each of `chunks` is taken in, in order.
    pub open spec fn update_all(self, chunks: Seq<Seq<u8>>) -> Self
        decreases chunks.len(),
    {
        if chunks.len() == 0 {
            self
        } else {
            self.update_all(chunks.drop_last()).update_raw(chunks.last())
        }
    }

    /// The bytes that `m` adds to the transcript: its encoding if it is a
    /// handshake message, and nothing if it is not.
    pub open spec fn message_bytes(m: MessageView) -> Seq<u8> {
        match m.payload {
            MessagePayloadView::Handshake(hs) => hs.wire(),
            _ => Seq::empty(),
        }
    }

    /// `m` is taken in if it is a handshake message, and passed over if not.
    pub open spec fn add_message(self, m: MessageView) -> Self {
        match m.payload {
            MessagePayloadView::Handshake(hs) => self.update_raw(hs.wire()),
            _ => self,
        }
    }

    /// The bytes that a hash is taken over: what the digest was fed if the
    /// hash is started, else what is buffered.
    pub open spec fn hash_input(self) -> Seq<u8> {
        if self.algorithm is Some {
            self.hashed
        } else {
            self.buffer
        }
    }

    /// What the hash would be if `extra` were taken in now. The algorithm is
    /// the one that the hash was started with, and `hash` if it was not
    /// started.
    pub open spec fn hash_given(self, hash: HashAlgorithm, extra: Seq<u8>) -> Seq<u8> {
        digest_of(
            match self.algorithm {
                Some(alg) => alg,
                None => hash,
            },
            self.hash_input() + extra,
        )
    }

    /// The hash of the transcript, once the hash is started.
    pub open spec fn current_hash(self) -> Seq<u8>
        recommends
            self.algorithm is Some,
    {
        digest_of(self.algorithm->0, self.hashed)
    }

    /// The value that is given out as the hash: the fixed value where there
    /// is one, else the hash of the transcript.
    pub open spec fn current_hash_raw(self) -> Seq<u8>
        recommends
            self.override_buffer is Some || self.algorithm is Some,
    {
        match self.override_buffer {
            Some(fixed) => fixed,
            None => self.current_hash(),
        }
    }

    /// Whether the message that stands for the transcript so far can be
    /// taken in by a restarted hash.
    pub open spec fn can_rollup(self) -> bool {
        &&& self.algorithm is Some
        &&& self.client_auth_enabled ==> self.buffer.len() + 4 + self.algorithm->0.output_len()
            <= MAX_INPUT_LEN
    }

    /// The transcript so far is replaced by the message that stands for it:
    /// the digest starts again under the same algorithm and is fed that
    /// message, which also goes into the buffer if the bytes are kept.
    pub open spec fn rollup_for_hrr(self) -> Self
        recommends
            self.algorithm is Some,
    {
        (HandshakeHashView { hashed: Seq::empty(), ..self }).update_raw(
            handshake_hash_encoding(self.current_hash()),
        )
    }

    /// The buffer is handed out and left empty.
    pub open spec fn take_handshake_buf(self) -> Self {
        HandshakeHashView { buffer: Seq::empty(), ..self }
    }
}

/// Taking in chunks before the hash is started only makes the buffer longer.
proof fn lemma_update_all_before_start(v: HandshakeHashView, chunks: Seq<Seq<u8>>)
    requires
        v.algorithm is None,
    ensures
        v.update_all(chunks) == (HandshakeHashView { buffer: v.buffer + concat(chunks), ..v }),
    decreases chunks.len(),
{
    if chunks.len() == 0 {
        assert(v.buffer + concat(chunks) =~= v.buffer);
    } else {
        lemma_update_all_before_start(v, chunks.drop_last());
        assert((v.buffer + concat(chunks.drop_last())) + chunks.last() =~= v.buffer + concat(
            chunks,
        ));
    }
}

/// Taking in chunks after the hash is started feeds each of them to the
/// digest and leaves the algorithm as it is.
proof fn lemma_update_all_after_start(v: HandshakeHashView, chunks: Seq<Seq<u8>>)
    requires
        v.algorithm is Some,
    ensures
        v.update_all(chunks).algorithm == v.algorithm,
        v.update_all(chunks).hashed == v.hashed + concat(chunks),
    decreases chunks.len(),
{
    if chunks.len() == 0 {
        assert(v.hashed + concat(chunks) =~= v.hashed);
    } else {
        lemma_update_all_after_start(v, chunks.drop_last());
        assert((v.hashed + concat(chunks.drop_last())) + chunks.last() =~= v.hashed + concat(
            chunks,
        ));
    }
}

/// Buffering is worth hashing: whatever was taken in before the hash was
/// started and whatever is taken in after, the hash is the digest of all of
/// it in order, whether or not the bytes are kept.
pub proof fn lemma_hash_covers_whole_transcript(
    client_auth: bool,
    before: Seq<Seq<u8>>,
    alg: HashAlgorithm,
    after: Seq<Seq<u8>>,
)
    ensures
        ({
            let fresh = if client_auth {
                HandshakeHashView::new().set_client_auth_enabled()
            } else {
                HandshakeHashView::new()
            };
            fresh.update_all(before).start_hash(alg).update_all(after).current_hash()
                == digest_of(alg, concat(before) + concat(after))
        }),
{
    let fresh = if client_auth {
        HandshakeHashView::new().set_client_auth_enabled()
    } else {
        HandshakeHashView::new()
    };
    lemma_update_all_before_start(fresh, before);
    assert(fresh.buffer + concat(before) =~= concat(before));
    lemma_update_all_after_start(fresh.update_all(before).start_hash(alg), after);
}

/// Giving up client auth before the hash is started forgets what was
/// buffered: the hash is then the digest of what was taken in afterwards,
/// and of nothing else.
pub proof fn lemma_abandon_forgets_buffer(
    v: HandshakeHashView,
    chunks: Seq<Seq<u8>>,
    alg: HashAlgorithm,
)
    requires
        v.algorithm is None,
    ensures
        v.abandon_client_auth().update_all(chunks).start_hash(alg).current_hash() == digest_of(
            alg,
            concat(chunks),
        ),
{
    let w = v.abandon_client_auth();
    lemma_update_all_before_start(w, chunks);
    assert(w.buffer + concat(chunks) =~= concat(chunks));
}

/// After a rollup the transcript is the message that stands for the old
/// hash, followed by what is taken in from then on: the new hash is the
/// digest, under the same algorithm, of exactly that.
pub proof fn lemma_rollup_restarts_transcript(v: HandshakeHashView, chunks: Seq<Seq<u8>>)
    requires
        v.algorithm is Some,
    ensures
        v.rollup_for_hrr().update_all(chunks).current_hash() == digest_of(
            v.algorithm->0,
            handshake_hash_encoding(v.current_hash()) + concat(chunks),
        ),
{
    let marker = handshake_hash_encoding(v.current_hash());
    assert(v.rollup_for_hrr().hashed =~= marker);
    lemma_update_all_after_start(v.rollup_for_hrr(), chunks);
}

/// This deals with keeping a running hash of the handshake payloads. This is
/// computed by buffering initially. Once we know what hash function we need
/// to use we switch to incremental hashing.
///
/// For client auth, we also need to buffer all the messages. This is
/// disabled in cases where client auth is not possible.
pub struct HandshakeHash {
    /// None before we know what hash function we're using
    ctx: Option<DigestContext>,
    /// true if we need to keep all messages
    client_auth_enabled: bool,
    /// buffer for pre-hashing stage and client-auth.
    buffer: Vec<u8>,
    override_buffer: Option<Vec<u8>>,
}

impl View for HandshakeHash {
    type V = HandshakeHashView;

    closed spec fn view(&self) -> HandshakeHashView {
        HandshakeHashView {
            algorithm: match self.ctx {
                Some(ctx) => Some(ctx.spec_algorithm()),
                None => None,
            },
            hashed: match self.ctx {
                Some(ctx) => ctx.input(),
                None => Seq::empty(),
            },
            client_auth_enabled: self.client_auth_enabled,
            buffer: self.buffer@,
            override_buffer: match self.override_buffer {
                Some(fixed) => Some(fixed@),
                None => None,
            },
        }
    }
}

impl HandshakeHash {
    #[verifier::type_invariant]
    spec fn valid(self) -> bool {
        self@.inv()
    }

    /// A transcript hash with nothing in it.
    pub fn new() -> (hh: HandshakeHash)
        ensures
            hh@ == HandshakeHashView::new(),
            hh@.inv(),
    {
        HandshakeHash {
            ctx: None,
            client_auth_enabled: false,
            buffer: Vec::new(),
            override_buffer: None,
        }
    }

    /// Creates a Handshake hash which return the same override hash always
    pub fn new_override(static_buffer: Vec<u8>) -> (hh: HandshakeHash)
        ensures
            hh@ == HandshakeHashView::new_override(static_buffer@),
            hh@.inv(),
    {
        HandshakeHash {
            ctx: None,
            client_auth_enabled: false,
            buffer: Vec::new(),
            override_buffer: Some(static_buffer),
        }
    }

    /// We might be doing client auth, so need to keep a full log of the
    /// handshake. To be called before the hash is started: after that, bytes
    /// may already have been dropped.
    pub fn set_client_auth_enabled(&mut self)
        requires
            old(self)@.algorithm is None,
        ensures
            final(self)@ == old(self)@.set_client_auth_enabled(),
            final(self)@.inv(),
    {
        proof {
            use_type_invariant(&*self);
        }
        self.client_auth_enabled = true;
    }

    /// We decided not to do client auth after all, so discard the
    /// transcript.
    pub fn abandon_client_auth(&mut self)
        ensures
            final(self)@ == old(self)@.abandon_client_auth(),
            final(self)@.inv(),
    {
        proof {
            use_type_invariant(&*self);
        }
        let mut dropped = Vec::new();
        core::mem::swap(&mut self.buffer, &mut dropped);
        self.client_auth_enabled = false;
    }

    /// We now know what hash function the verify_data will use.
    ///
    /// Returns false, and changes nothing, when the hash was started before
    /// with another algorithm: the handshake cannot go on.
    pub fn start_hash(&mut self, alg: HashAlgorithm) -> (ok: bool)
        ensures
            ok == old(self)@.accepts(alg),
            final(self)@ == old(self)@.start_hash(alg),
            final(self)@.inv(),
    {
        proof {
            use_type_invariant(&*self);
        }
        match &self.ctx {
            None => {},
            Some(ctx) => {
                // false: hash type is changing
                return ctx.algorithm() == alg;
            },
        }

        let mut buffer = Vec::new();
        core::mem::swap(&mut self.buffer, &mut buffer);
        let mut ctx = DigestContext::new(alg);
        ctx.update(buffer.as_slice());
        assert(ctx.input() =~= buffer@);
        self.ctx = Some(ctx);

        // Discard buffer if we don't need it now.
        if self.client_auth_enabled {
            self.buffer = buffer;
        }
        true
    }

    /// Whether `len` more bytes can be taken in.
    pub fn can_absorb(&self, len: usize) -> (b: bool)
        ensures
            b == self@.can_absorb(len as nat),
    {
        proof {
            use_type_invariant(self);
        }
        let digest_room = match &self.ctx {
            Some(ctx) => ctx.room(),
            None => MAX_INPUT_LEN,
        };
        let buffer_room = MAX_INPUT_LEN - self.buffer.len() as u64;
        len as u64 <= digest_room && len as u64 <= buffer_room
    }

    /// Hash/buffer a handshake message. Any other message is passed over.
    pub fn add_message(&mut self, m: &Message) -> (ret: &mut HandshakeHash)
        requires
            m@.payload is Handshake ==> old(self)@.can_absorb(
                HandshakeHashView::message_bytes(m@).len(),
            ),
        ensures
            ret@ == old(self)@.add_message(m@),
            ret@.inv(),
            *final(self) == *final(ret),
    {
        proof {
            use_type_invariant(&*self);
        }
        if let MessagePayload::Handshake(hs) = &m.payload {
            let buf = hs.get_encoding();
            self.update_raw(buf.as_slice());
        }
        self
    }

    /// Hash or buffer a byte slice. There has to be room for it: see
    /// `can_absorb`.
    pub fn update_raw(&mut self, buf: &[u8]) -> (ret: &mut Self)
        requires
            old(self)@.can_absorb(buf@.len()),
        ensures
            ret@ == old(self)@.update_raw(buf@),
            ret@.inv(),
            *final(self) == *final(ret),
    {
        proof {
            use_type_invariant(&*self);
        }
        let mut ctx = None;
        core::mem::swap(&mut self.ctx, &mut ctx);
        let mut buffer = Vec::new();
        core::mem::swap(&mut self.buffer, &mut buffer);

        if let Some(c) = &mut ctx {
            c.update(buf);
        }
        if ctx.is_none() || self.client_auth_enabled {
            buffer.extend_from_slice(buf);
            assert(buffer@ =~= old(self)@.buffer + buf@);
        }
        self.buffer = buffer;
        self.ctx = ctx;
        self
    }

    /// Hash or buffer a byte slice if there is room for it, and say whether
    /// there was. Where there was not, nothing changes.
    pub fn try_update_raw(&mut self, buf: &[u8]) -> (done: bool)
        ensures
            done == old(self)@.can_absorb(buf@.len()),
            done ==> final(self)@ == old(self)@.update_raw(buf@),
            !done ==> final(self)@ == old(self)@,
            final(self)@.inv(),
    {
        proof {
            use_type_invariant(&*self);
        }
        if self.can_absorb(buf.len()) {
            self.update_raw(buf);
            true
        } else {
            false
        }
    }

    /// Get the hash value if we were to hash `extra` too, using hash
    /// function `hash`. Once the hash is started its own function is used,
    /// whatever `hash` is.
    pub fn get_hash_given(&self, hash: HashAlgorithm, extra: &[u8]) -> (digest: Vec<u8>)
        requires
            self@.hash_input().len() + extra@.len() <= MAX_INPUT_LEN,
        ensures
            digest@ == self@.hash_given(hash, extra@),
    {
        proof {
            use_type_invariant(self);
        }
        let mut ctx = match &self.ctx {
            None => {
                let mut ctx = DigestContext::new(hash);
                ctx.update(self.buffer.as_slice());
                assert(ctx.input() =~= self.buffer@);
                ctx
            },
            Some(ctx) => ctx.clone(),
        };

        ctx.update(extra);
        ctx.finish()
    }

    /// Take the current hash value, and encapsulate it in a 'handshake_hash'
    /// handshake message. Start this hash again, with that message at the
    /// front.
    pub fn rollup_for_hrr(&mut self)
        requires
            old(self)@.can_rollup(),
        ensures
            final(self)@ == old(self)@.rollup_for_hrr(),
            final(self)@.inv(),
    {
        proof {
            use_type_invariant(&*self);
        }
        let mut taken = None;
        core::mem::swap(&mut self.ctx, &mut taken);
        let old_ctx = taken.unwrap();
        let alg = old_ctx.algorithm();
        let old_hash = old_ctx.finish();
        let old_handshake_hash_msg = HandshakeMessagePayload::build_handshake_hash(
            old_hash.as_slice(),
        );
        let encoding = old_handshake_hash_msg.get_encoding();
        assert(encoding@.len() == 4 + old_hash@.len());

        let mut buffer = Vec::new();
        core::mem::swap(&mut self.buffer, &mut buffer);
        let mut ctx = DigestContext::new(alg);
        ctx.update(encoding.as_slice());
        assert(ctx.input() =~= Seq::<u8>::empty() + encoding@);
        if self.client_auth_enabled {
            buffer.extend_from_slice(encoding.as_slice());
            assert(buffer@ =~= old(self)@.buffer + encoding@);
        }
        self.buffer = buffer;
        self.ctx = Some(ctx);
    }

    /// Get the current hash value.
    pub fn get_current_hash(&self) -> (digest: Vec<u8>)
        requires
            self@.algorithm is Some,
        ensures
            digest@ == self@.current_hash(),
            digest@.len() == self@.algorithm->0.output_len(),
    {
        proof {
            use_type_invariant(self);
        }
        self.ctx.as_ref().unwrap().clone().finish()
    }

    /// The value that stands for the hash: the one given to `new_override`
    /// if the hash was made with it, else the current hash value.
    pub fn get_current_hash_raw(&self) -> (digest: Vec<u8>)
        requires
            self@.override_buffer is Some || self@.algorithm is Some,
        ensures
            digest@ == self@.current_hash_raw(),
    {
        if let Some(static_buffer) = &self.override_buffer {
            static_buffer.clone()
        } else {
            self.get_current_hash()
        }
    }

    /// Takes this object's buffer containing all handshake messages so far.
    /// This method only works once; it resets the buffer to empty.
    pub fn take_handshake_buf(&mut self) -> (buf: Vec<u8>)
        requires
            old(self)@.client_auth_enabled,
        ensures
            buf@ == old(self)@.buffer,
            final(self)@ == old(self)@.take_handshake_buf(),
            final(self)@.inv(),
    {
        proof {
            use_type_invariant(&*self);
        }
        let mut buf = Vec::new();
        core::mem::swap(&mut self.buffer, &mut buf);
        buf
    }

    /// The algorithm that the hash was started with, once it was.
    pub fn algorithm(&self) -> (alg: Option<HashAlgorithm>)
        ensures
            alg == self@.algorithm,
    {
        match &self.ctx {
            Some(ctx) => Some(ctx.algorithm()),
            None => None,
        }
    }

    /// Whether the bytes of the transcript are kept.
    pub fn is_client_auth_enabled(&self) -> (b: bool)
        ensures
            b == self@.client_auth_enabled,
    {
        self.client_auth_enabled
    }

    /// How many bytes are held in the buffer.
    pub fn buffer_len(&self) -> (n: usize)
        ensures
            n == self@.buffer.len(),
    {
        self.buffer.len()
    }
}

impl Clone for HandshakeHash {
    /// A second transcript hash in the same state. What is taken in by
    /// either leaves the other as it is.
    fn clone(&self) -> (copy: HandshakeHash)
        ensures
            copy@ == self@,
    {
        proof {
            use_type_invariant(self);
        }
        HandshakeHash {
            ctx: match &self.ctx {
                Some(ctx) => Some(ctx.clone()),
                None => None,
            },
            client_auth_enabled: self.client_auth_enabled,
            buffer: self.buffer.clone(),
            override_buffer: match &self.override_buffer {
                Some(fixed) => Some(fixed.clone()),
                None => None,
            },
        }
    }
}

} // verus!
