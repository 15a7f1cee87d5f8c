//! Records as they appear on the wire, and messages with a decoded payload.

use super::alert::AlertMessagePayload;
use super::base::Payload;
use super::ccs::ChangeCipherSpecPayload;
use super::codec::{be16, encode_u16, from_be16, lemma_be16_round_trip, read_u16, Reader};
use super::enums::{AlertDescription, AlertLevel, ContentType, HandshakeType, ProtocolVersion};
use super::handshake::{HandshakeMessagePayload, HandshakeMessagePayloadView};
use super::heartbeat::{HeartbeatPayload, HeartbeatPayloadView};
use crate::error::Error;
use vstd::prelude::*;
use vstd::std_specs::convert::{FromSpecImpl, TryFromSpecImpl};

verus! {

/// Why a record could not be read.
///
/// The two `TooShort` errors say that the input is a prefix of something that
/// may still become a record when more bytes arrive. The three `Illegal`
/// errors say that no continuation of the input is a record.
#[derive(Clone, Copy, Debug, PartialEq, Eq, Structural)]
pub enum MessageError {
    TooShortForHeader,
    TooShortForLength,
    IllegalLength,
    IllegalContentType,
    IllegalProtocolVersion,
}

/// What a record says on the wire: its three header fields as numbers, and
/// its payload.
pub struct OpaqueMessageView {
    pub typ: u8,
    pub version: u16,
    pub payload: Seq<u8>,
}

/// The content types that a record may be read with.
pub open spec fn is_known_content_type(typ: u8) -> bool {
    20 <= typ <= 24
}

/// The versions that a record may be read with: major byte 3, any minor.
pub open spec fn is_accepted_version(version: u16) -> bool {
    version / 256 == 3
}

impl OpaqueMessageView {
    /// The bytes of this record: the header, then the payload as it is. The
    /// length field holds the low 16 bits of the payload's length.
    pub open spec fn wire(self) -> Seq<u8> {
        seq![self.typ] + be16(self.version) + be16((self.payload.len() % 0x1_0000) as u16)
            + self.payload
    }

    /// Whether this record is one that reading accepts.
    pub open spec fn readable(self) -> bool {
        &&& is_known_content_type(self.typ)
        &&& is_accepted_version(self.version)
        &&& self.payload.len() < OpaqueMessage::MAX_PAYLOAD
    }
}

/// The record at the front of `bytes`, or the reason why there is none.
///
/// The checks come in this order: the header is complete, the length is
/// under the bound, the content type is known, the version is accepted, the
/// payload is complete.
pub open spec fn parse_record(bytes: Seq<u8>) -> Result<OpaqueMessageView, MessageError> {
    if bytes.len() < OpaqueMessage::HEADER_SIZE {
        Err(MessageError::TooShortForHeader)
    } else {
        let typ = bytes[0];
        let version = from_be16(bytes.skip(1));
        let len = from_be16(bytes.skip(3));
        if len >= OpaqueMessage::MAX_PAYLOAD {
            Err(MessageError::IllegalLength)
        } else if !is_known_content_type(typ) {
            Err(MessageError::IllegalContentType)
        } else if !is_accepted_version(version) {
            Err(MessageError::IllegalProtocolVersion)
        } else if bytes.len() < OpaqueMessage::HEADER_SIZE + len {
            Err(MessageError::TooShortForLength)
        } else {
            Ok(OpaqueMessageView { typ, version, payload: bytes.subrange(5, 5 + len) })
        }
    }
}

/// How many bytes of `bytes` reading a record consumes: the whole record
/// when there is one, else the header fields that were complete.
pub open spec fn record_consumed(bytes: Seq<u8>) -> nat {
    if bytes.len() < 1 {
        0
    } else if bytes.len() < 3 {
        1
    } else if bytes.len() < 5 {
        3
    } else {
        match parse_record(bytes) {
            Ok(m) => 5 + m.payload.len(),
            Err(_) => 5,
        }
    }
}

/// The header fields of a record are found again at the front of its bytes,
/// whatever follows them.
proof fn lemma_wire_header(m: OpaqueMessageView, rest: Seq<u8>)
    requires
        m.payload.len() < 0x1_0000,
    ensures
        (m.wire() + rest).len() == OpaqueMessage::HEADER_SIZE + m.payload.len() + rest.len(),
        (m.wire() + rest)[0] == m.typ,
        from_be16((m.wire() + rest).skip(1)) == m.version,
        from_be16((m.wire() + rest).skip(3)) == m.payload.len(),
        (m.wire() + rest).subrange(5, 5 + m.payload.len() as int) == m.payload,
{
    let bytes = m.wire() + rest;
    let len = (m.payload.len() % 0x1_0000) as u16;
    lemma_be16_round_trip(m.version);
    lemma_be16_round_trip(len);
    assert(bytes.skip(1)[0] == be16(m.version)[0]);
    assert(bytes.skip(1)[1] == be16(m.version)[1]);
    assert(bytes.skip(3)[0] == be16(len)[0]);
    assert(bytes.skip(3)[1] == be16(len)[1]);
    assert(bytes.subrange(5, 5 + m.payload.len() as int) =~= m.payload);
}

/// Reading undoes writing: a record that reading accepts is read back from
/// its own bytes, whatever follows them, and reading consumes exactly those
/// bytes.
pub proof fn lemma_read_after_encode(m: OpaqueMessageView, rest: Seq<u8>)
    requires
        m.readable(),
    ensures
        parse_record(m.wire() + rest) == Ok::<OpaqueMessageView, MessageError>(m),
        record_consumed(m.wire() + rest) == m.wire().len(),
{
    lemma_wire_header(m, rest);
}

/// A record whose content type is not a known one can be written, but what
/// was written is never read back: reading fails on the content type.
pub proof fn lemma_unknown_content_type_is_not_read(m: OpaqueMessageView, rest: Seq<u8>)
    requires
        !is_known_content_type(m.typ),
        m.payload.len() < OpaqueMessage::MAX_PAYLOAD,
    ensures
        parse_record(m.wire() + rest) == Err::<OpaqueMessageView, MessageError>(
            MessageError::IllegalContentType,
        ),
{
    lemma_wire_header(m, rest);
}

/// A record: a content type, a version and an owned payload that is not
/// interpreted.
#[derive(Debug)]
pub struct OpaqueMessage {
    pub typ: ContentType,
    pub version: ProtocolVersion,
    pub payload: Payload,
}

impl View for OpaqueMessage {
    type V = OpaqueMessageView;

    open spec fn view(&self) -> OpaqueMessageView {
        OpaqueMessageView { typ: self.typ@, version: self.version@, payload: self.payload@ }
    }
}

/// A record that borrows its payload.
pub struct BorrowedOpaqueMessage<'a> {
    pub typ: ContentType,
    pub version: ProtocolVersion,
    pub payload: &'a [u8],
}

impl<'a> View for BorrowedOpaqueMessage<'a> {
    type V = OpaqueMessageView;

    open spec fn view(&self) -> OpaqueMessageView {
        OpaqueMessageView { typ: self.typ@, version: self.version@, payload: self.payload@ }
    }
}

impl Clone for OpaqueMessage {
    fn clone(&self) -> (out: Self)
        ensures
            out@ == self@,
            out.typ == self.typ,
            out.version == self.version,
    {
        OpaqueMessage { typ: self.typ, version: self.version, payload: self.payload.clone() }
    }
}

impl OpaqueMessage {
    /// The bound that the length field of a record must stay under: 2^14
    /// payload bytes and a 2KB allowance for ciphertext overheads.
    pub const MAX_PAYLOAD: u16 = 16384 + 2048;

    /// Content type, version and size.
    pub const HEADER_SIZE: u16 = 1 + 2 + 2;

    /// Maximum on-wire message size.
    pub const MAX_WIRE_SIZE: usize = (Self::MAX_PAYLOAD + Self::HEADER_SIZE) as usize;

    /// Reads the record at the front of what is left in `r`.
    ///
    /// On success the reader stands behind the record. On failure it stands
    /// behind the header fields that could be read.
    pub fn read(r: &mut Reader) -> (res: Result<OpaqueMessage, MessageError>)
        ensures
            match res {
                Ok(m) => {
                    &&& parse_record(old(r).remaining()) == Ok::<OpaqueMessageView, MessageError>(
                        m@,
                    )
                    &&& m.typ == ContentType::spec_from_u8(m@.typ)
                    &&& m.version == ProtocolVersion::spec_from_u16(m@.version)
                },
                Err(e) => parse_record(old(r).remaining()) == Err::<
                    OpaqueMessageView,
                    MessageError,
                >(e),
            },
            final(r).advanced(*old(r), record_consumed(old(r).remaining())),
    {
        let ghost start = *r;
        let ghost input = r.remaining();
        let typ = match ContentType::read(r) {
            Some(t) => t,
            None => {
                return Err(MessageError::TooShortForHeader);
            },
        };
        let ghost after_typ = *r;
        proof {
            ContentType::lemma_from_u8_view(input[0]);
        }
        let version = match ProtocolVersion::read(r) {
            Some(v) => v,
            None => {
                return Err(MessageError::TooShortForHeader);
            },
        };
        let ghost after_version = *r;
        proof {
            ProtocolVersion::lemma_from_u16_view(from_be16(input.skip(1)));
            after_version.lemma_advanced_twice(after_typ, start, 1, 2);
        }
        let len = match read_u16(r) {
            Some(l) => l,
            None => {
                return Err(MessageError::TooShortForHeader);
            },
        };
        let ghost after_len = *r;
        proof {
            after_len.lemma_advanced_twice(after_version, start, 3, 2);
        }

        // Reject oversize messages
        if len >= OpaqueMessage::MAX_PAYLOAD {
            return Err(MessageError::IllegalLength);
        }
        // Don't accept any new content-types.

        if let ContentType::Unknown(_) = typ {
            return Err(MessageError::IllegalContentType);
        }
        // Accept only versions 0x03XX for any XX.

        if version.get_u16() / 256 != 3 {
            return Err(MessageError::IllegalProtocolVersion);
        }
        let mut sub = match r.sub(len as usize) {
            Some(s) => s,
            None => {
                return Err(MessageError::TooShortForLength);
            },
        };
        let payload = Payload::read(&mut sub);
        proof {
            r.lemma_advanced_twice(after_len, start, 5, len as nat);
            assert(payload@ =~= input.subrange(5, 5 + len));
        }

        Ok(OpaqueMessage { typ, version, payload })
    }

    /// The bytes of this record.
    pub fn encode(self) -> (bytes: Vec<u8>)
        ensures
            bytes@ == self@.wire(),
    {
        let mut buf = Vec::new();
        self.typ.encode(&mut buf);
        self.version.encode(&mut buf);
        encode_u16((self.payload.0.len() % 0x1_0000) as u16, &mut buf);
        self.payload.encode(&mut buf);
        buf
    }

    /// The same record, with the payload borrowed from this one.
    pub fn borrow(&self) -> (b: BorrowedOpaqueMessage<'_>)
        ensures
            b@ == self@,
            b.typ == self.typ,
            b.version == self.version,
    {
        BorrowedOpaqueMessage {
            typ: self.typ,
            version: self.version,
            payload: self.payload.0.as_slice(),
        }
    }
}

/// The payload of a record, decoded according to its content type.
#[derive(Debug)]
pub enum MessagePayload {
    Alert(AlertMessagePayload),
    Handshake(HandshakeMessagePayload),
    /// A handshake record that does not parse as a handshake message: under
    /// TLS 1.2 the handshake records that follow a change of cipher are
    /// encrypted.
    TLS12EncryptedHandshake(Payload),
    ChangeCipherSpec(ChangeCipherSpecPayload),
    ApplicationData(Payload),
    Heartbeat(HeartbeatPayload),
}

/// What a decoded payload holds.
pub enum MessagePayloadView {
    Alert(AlertMessagePayload),
    Handshake(HandshakeMessagePayloadView),
    TLS12EncryptedHandshake(Seq<u8>),
    ChangeCipherSpec(ChangeCipherSpecPayload),
    ApplicationData(Seq<u8>),
    Heartbeat(HeartbeatPayloadView),
}

impl View for MessagePayload {
    type V = MessagePayloadView;

    open spec fn view(&self) -> MessagePayloadView {
        match self {
            MessagePayload::Alert(x) => MessagePayloadView::Alert(*x),
            MessagePayload::Handshake(x) => MessagePayloadView::Handshake(x@),
            MessagePayload::TLS12EncryptedHandshake(x) => MessagePayloadView::TLS12EncryptedHandshake(
                x@,
            ),
            MessagePayload::ChangeCipherSpec(x) => MessagePayloadView::ChangeCipherSpec(*x),
            MessagePayload::ApplicationData(x) => MessagePayloadView::ApplicationData(x@),
            MessagePayload::Heartbeat(x) => MessagePayloadView::Heartbeat(x@),
        }
    }
}

impl Clone for MessagePayload {
    fn clone(&self) -> (out: Self)
        ensures
            out@ == self@,
    {
        match self {
            MessagePayload::Alert(x) => MessagePayload::Alert(*x),
            MessagePayload::Handshake(x) => MessagePayload::Handshake(x.clone()),
            MessagePayload::TLS12EncryptedHandshake(x) => MessagePayload::TLS12EncryptedHandshake(
                x.clone(),
            ),
            MessagePayload::ChangeCipherSpec(x) => MessagePayload::ChangeCipherSpec(*x),
            MessagePayload::ApplicationData(x) => MessagePayload::ApplicationData(x.clone()),
            MessagePayload::Heartbeat(x) => MessagePayload::Heartbeat(x.clone()),
        }
    }
}

impl MessagePayloadView {
    /// The bytes that this payload is written as.
    pub open spec fn wire(self) -> Seq<u8> {
        match self {
            MessagePayloadView::Alert(x) => x.wire(),
            MessagePayloadView::Handshake(x) => x.wire(),
            MessagePayloadView::TLS12EncryptedHandshake(x) => x,
            MessagePayloadView::ChangeCipherSpec(_) => ChangeCipherSpecPayload::wire(),
            MessagePayloadView::ApplicationData(x) => x,
            MessagePayloadView::Heartbeat(x) => x.wire(),
        }
    }

    /// The content type of the record that carries this payload.
    pub open spec fn content_type(self) -> ContentType {
        match self {
            MessagePayloadView::Alert(_) => ContentType::Alert,
            MessagePayloadView::Handshake(_) => ContentType::Handshake,
            MessagePayloadView::TLS12EncryptedHandshake(_) => ContentType::Handshake,
            MessagePayloadView::ChangeCipherSpec(_) => ContentType::ChangeCipherSpec,
            MessagePayloadView::ApplicationData(_) => ContentType::ApplicationData,
            MessagePayloadView::Heartbeat(_) => ContentType::Heartbeat,
        }
    }

    /// What the bytes `payload` of a record of type `typ` decode to, if they
    /// decode at all.
    ///
    /// Application data is taken as it is. An alert, a change of cipher and a
    /// heartbeat must parse as one. A handshake record that does not parse
    /// as a handshake message is taken as an encrypted one. A record of any
    /// other type decodes to nothing. Bytes that follow what was parsed are
    /// let pass.
    pub open spec fn decode(typ: ContentType, payload: Seq<u8>) -> Option<Self> {
        match typ {
            ContentType::ApplicationData => Some(MessagePayloadView::ApplicationData(payload)),
            ContentType::Alert => match AlertMessagePayload::parse(payload) {
                Some(x) => Some(MessagePayloadView::Alert(x)),
                None => None,
            },
            ContentType::Handshake => match HandshakeMessagePayloadView::parse(payload) {
                Some(x) => Some(MessagePayloadView::Handshake(x)),
                None => Some(MessagePayloadView::TLS12EncryptedHandshake(payload)),
            },
            ContentType::ChangeCipherSpec => match ChangeCipherSpecPayload::parse(payload) {
                Some(x) => Some(MessagePayloadView::ChangeCipherSpec(x)),
                None => None,
            },
            ContentType::Heartbeat => match HeartbeatPayloadView::parse(payload) {
                Some(x) => Some(MessagePayloadView::Heartbeat(x)),
                None => None,
            },
            ContentType::Unknown(_) => None,
        }
    }
}

impl MessagePayload {
    /// Appends the bytes that this payload is written as.
    pub fn encode(&self, bytes: &mut Vec<u8>)
        ensures
            final(bytes)@ == old(bytes)@ + self@.wire(),
    {
        match self {
            MessagePayload::Alert(x) => x.encode(bytes),
            MessagePayload::Handshake(x) => x.encode(bytes),
            MessagePayload::TLS12EncryptedHandshake(x) => x.encode(bytes),
            MessagePayload::ChangeCipherSpec(x) => x.encode(bytes),
            MessagePayload::ApplicationData(x) => x.encode(bytes),
            MessagePayload::Heartbeat(x) => x.encode(bytes),
        }
    }

    /// Decodes the payload of a record of type `typ`, or says that it is
    /// corrupt.
    pub fn new(typ: ContentType, vers: ProtocolVersion, payload: Payload) -> (res: Result<
        MessagePayload,
        Error,
    >)
        ensures
            match MessagePayloadView::decode(typ, payload@) {
                Some(v) => res is Ok && res->Ok_0@ == v,
                None => res == Err::<MessagePayload, Error>(Error::CorruptMessagePayload(typ)),
            },
    {
        let parsed = match typ {
            ContentType::ApplicationData => {
                return Ok(MessagePayload::ApplicationData(payload));
            },
            ContentType::Alert => {
                let mut r = Reader::init(payload.0.as_slice());
                match AlertMessagePayload::read(&mut r) {
                    Some(x) => Some(MessagePayload::Alert(x)),
                    None => None,
                }
            },
            ContentType::Handshake => {
                let mut r = Reader::init(payload.0.as_slice());
                match HandshakeMessagePayload::read_version(&mut r, vers) {
                    Some(x) => Some(MessagePayload::Handshake(x)),
                    // this type is for TLS 1.2 encrypted handshake messages
                    None => Some(MessagePayload::TLS12EncryptedHandshake(payload)),
                }
            },
            ContentType::ChangeCipherSpec => {
                let mut r = Reader::init(payload.0.as_slice());
                match ChangeCipherSpecPayload::read(&mut r) {
                    Some(x) => Some(MessagePayload::ChangeCipherSpec(x)),
                    None => None,
                }
            },
            ContentType::Heartbeat => {
                let mut r = Reader::init(payload.0.as_slice());
                match HeartbeatPayload::read(&mut r) {
                    Some(x) => Some(MessagePayload::Heartbeat(x)),
                    None => None,
                }
            },
            _ => None,
        };

        match parsed {
            Some(p) => Ok(p),
            None => Err(Error::CorruptMessagePayload(typ)),
        }
    }

    /// The content type of the record that carries this payload.
    pub fn content_type(&self) -> (typ: ContentType)
        ensures
            typ == self@.content_type(),
    {
        match self {
            MessagePayload::Alert(_) => ContentType::Alert,
            MessagePayload::Handshake(_) => ContentType::Handshake,
            MessagePayload::TLS12EncryptedHandshake(_) => ContentType::Handshake,
            MessagePayload::ChangeCipherSpec(_) => ContentType::ChangeCipherSpec,
            MessagePayload::ApplicationData(_) => ContentType::ApplicationData,
            MessagePayload::Heartbeat(_) => ContentType::Heartbeat,
        }
    }
}

/// A message with decoded payload.
#[derive(Debug)]
pub struct Message {
    pub version: ProtocolVersion,
    pub payload: MessagePayload,
}

/// What a message holds.
pub struct MessageView {
    pub version: ProtocolVersion,
    pub payload: MessagePayloadView,
}

impl View for Message {
    type V = MessageView;

    open spec fn view(&self) -> MessageView {
        MessageView { version: self.version, payload: self.payload@ }
    }
}

impl Clone for Message {
    fn clone(&self) -> (out: Self)
        ensures
            out@ == self@,
    {
        Message { version: self.version, payload: self.payload.clone() }
    }
}

impl MessageView {
    /// Whether this is a handshake message of type `hstyp`.
    pub open spec fn is_handshake_type(self, hstyp: HandshakeType) -> bool {
        self.payload matches MessagePayloadView::Handshake(hsp) && hsp.typ == hstyp
    }

    /// The record that carries this message.
    pub open spec fn to_opaque(self) -> OpaqueMessageView {
        OpaqueMessageView {
            typ: self.payload.content_type()@,
            version: self.version@,
            payload: self.payload.wire(),
        }
    }

    /// What the record `typ`, `version`, `payload` decodes to, if its
    /// payload decodes.
    pub open spec fn from_opaque(
        typ: ContentType,
        version: ProtocolVersion,
        payload: Seq<u8>,
    ) -> Option<Self> {
        match MessagePayloadView::decode(typ, payload) {
            Some(p) => Some(MessageView { version, payload: p }),
            None => None,
        }
    }
}

impl Message {
    /// Whether this is a handshake message of type `hstyp`.
    pub fn is_handshake_type(&self, hstyp: HandshakeType) -> (b: bool)
        ensures
            b == self@.is_handshake_type(hstyp),
    {
        // Bit of a layering violation, but OK.
        if let MessagePayload::Handshake(ref hsp) = self.payload {
            hsp.typ == hstyp
        } else {
            false
        }
    }

    /// An alert message, under version TLS 1.2.
    pub fn build_alert(level: AlertLevel, desc: AlertDescription) -> (m: Message)
        ensures
            m@ == (MessageView {
                version: ProtocolVersion::TLSv1_2,
                payload: MessagePayloadView::Alert(
                    AlertMessagePayload { level, description: desc },
                ),
            }),
    {
        Message {
            version: ProtocolVersion::TLSv1_2,
            payload: MessagePayload::Alert(AlertMessagePayload { level, description: desc }),
        }
    }

    /// The handshake message that announces new keys without asking the peer
    /// for its own, under version TLS 1.3.
    pub fn build_key_update_notify() -> (m: Message)
        ensures
            m@ == (MessageView {
                version: ProtocolVersion::TLSv1_3,
                payload: MessagePayloadView::Handshake(
                    HandshakeMessagePayloadView::key_update_notify(),
                ),
            }),
    {
        Message {
            version: ProtocolVersion::TLSv1_3,
            payload: MessagePayload::Handshake(HandshakeMessagePayload::build_key_update_notify()),
        }
    }
}

impl From<Message> for OpaqueMessage {
    /// The record that carries `msg`. Application data is handed over as it
    /// is; any other payload is written out.
    fn from(msg: Message) -> (res: OpaqueMessage)
        ensures
            res.typ == msg@.payload.content_type(),
            res.version == msg.version,
            res.payload@ == msg@.payload.wire(),
            res@ == msg@.to_opaque(),
    {
        let typ = msg.payload.content_type();
        let payload = match msg.payload {
            MessagePayload::ApplicationData(payload) => payload,
            other => {
                let mut buf = Vec::new();
                other.encode(&mut buf);
                assert(buf@ =~= other@.wire());
                Payload(buf)
            },
        };

        OpaqueMessage { typ, version: msg.version, payload }
    }
}

/// What `from` returns is stated on `from` itself, over views: a record owns
/// a vector, and no spec function can name the vector that comes back.
impl FromSpecImpl<Message> for OpaqueMessage {
    open spec fn obeys_from_spec() -> bool {
        false
    }

    open spec fn from_spec(v: Message) -> Self {
        arbitrary()
    }
}

impl TryFrom<OpaqueMessage> for Message {
    type Error = Error;

    /// Decodes the payload of `opaque` according to its content type.
    fn try_from(opaque: OpaqueMessage) -> (res: Result<Self, Error>)
        ensures
            match MessageView::from_opaque(opaque.typ, opaque.version, opaque.payload@) {
                Some(m) => res is Ok && res->Ok_0@ == m,
                None => res == Err::<Message, Error>(Error::CorruptMessagePayload(opaque.typ)),
            },
    {
        let version = opaque.version;
        match MessagePayload::new(opaque.typ, version, opaque.payload) {
            Ok(payload) => Ok(Message { version, payload }),
            Err(e) => Err(e),
        }
    }
}

/// What `try_from` returns is stated on `try_from` itself, over views.
impl TryFromSpecImpl<OpaqueMessage> for Message {
    open spec fn obeys_try_from_spec() -> bool {
        false
    }

    open spec fn try_from_spec(v: OpaqueMessage) -> Result<Self, Error> {
        arbitrary()
    }
}

} // verus!
