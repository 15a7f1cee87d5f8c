//! The registries of the wire format: each is a closed list of named code
//! points, with `Unknown` holding any other number as it was read.
//!
//! The view of a value is the number that stands for it on the wire.

use super::codec::{be16, encode_u16, encode_u8, from_be16, read_u16, read_u8, Reader};
use vstd::prelude::*;

verus! {

/// The kind of payload that a record carries.
#[allow(non_camel_case_types)]
#[derive(Clone, Copy, Debug, PartialEq, Eq, Structural)]
pub enum ContentType {
    ChangeCipherSpec,
    Alert,
    Handshake,
    ApplicationData,
    Heartbeat,
    Unknown(u8),
}

impl View for ContentType {
    type V = u8;

    open spec fn view(&self) -> u8 {
        match self {
            ContentType::ChangeCipherSpec => 20,
            ContentType::Alert => 21,
            ContentType::Handshake => 22,
            ContentType::ApplicationData => 23,
            ContentType::Heartbeat => 24,
            ContentType::Unknown(x) => *x,
        }
    }
}

impl ContentType {
    /// The value that the number `x` is read as: its name where it has one.
    pub open spec fn spec_from_u8(x: u8) -> Self {
        if x == 20 {
            ContentType::ChangeCipherSpec
        } else if x == 21 {
            ContentType::Alert
        } else if x == 22 {
            ContentType::Handshake
        } else if x == 23 {
            ContentType::ApplicationData
        } else if x == 24 {
            ContentType::Heartbeat
        } else {
            ContentType::Unknown(x)
        }
    }

    /// The value that the number `x` is read as.
    pub fn from_u8(x: u8) -> (v: Self)
        ensures
            v == Self::spec_from_u8(x),
            v@ == x,
    {
        match x {
            20 => ContentType::ChangeCipherSpec,
            21 => ContentType::Alert,
            22 => ContentType::Handshake,
            23 => ContentType::ApplicationData,
            24 => ContentType::Heartbeat,
            _ => ContentType::Unknown(x),
        }
    }

    /// The number that stands for this value on the wire.
    pub fn get_u8(&self) -> (x: u8)
        ensures
            x == self@,
    {
        match self {
            ContentType::ChangeCipherSpec => 20,
            ContentType::Alert => 21,
            ContentType::Handshake => 22,
            ContentType::ApplicationData => 23,
            ContentType::Heartbeat => 24,
            ContentType::Unknown(x) => *x,
        }
    }

    /// Appends the wire form of this value.
    pub fn encode(&self, bytes: &mut Vec<u8>)
        ensures
            final(bytes)@ == old(bytes)@.push(self@),
    {
        encode_u8(self.get_u8(), bytes);
    }

    /// Reads one value, or nothing when the input is too short for it.
    pub fn read(r: &mut Reader) -> (out: Option<Self>)
        ensures
            old(r).remaining().len() >= 1 ==> out == Some(Self::spec_from_u8(old(r).remaining()[0]))
                && final(r).advanced(*old(r), 1),
            old(r).remaining().len() < 1 ==> out is None && final(r).advanced(*old(r), 0),
    {
        match read_u8(r) {
            Some(x) => Some(Self::from_u8(x)),
            None => None,
        }
    }

    /// A number is read as a value that is written as that number again.
    pub proof fn lemma_from_u8_view(x: u8)
        ensures
            Self::spec_from_u8(x)@ == x,
    {
    }
}

/// A protocol version as it appears on the wire.
#[allow(non_camel_case_types)]
#[derive(Clone, Copy, Debug, PartialEq, Eq, Structural)]
pub enum ProtocolVersion {
    SSLv2,
    SSLv3,
    TLSv1_0,
    TLSv1_1,
    TLSv1_2,
    TLSv1_3,
    Unknown(u16),
}

impl View for ProtocolVersion {
    type V = u16;

    open spec fn view(&self) -> u16 {
        match self {
            ProtocolVersion::SSLv2 => 0x0200,
            ProtocolVersion::SSLv3 => 0x0300,
            ProtocolVersion::TLSv1_0 => 0x0301,
            ProtocolVersion::TLSv1_1 => 0x0302,
            ProtocolVersion::TLSv1_2 => 0x0303,
            ProtocolVersion::TLSv1_3 => 0x0304,
            ProtocolVersion::Unknown(x) => *x,
        }
    }
}

impl ProtocolVersion {
    /// The value that the number `x` is read as: its name where it has one.
    pub open spec fn spec_from_u16(x: u16) -> Self {
        if x == 0x0200 {
            ProtocolVersion::SSLv2
        } else if x == 0x0300 {
            ProtocolVersion::SSLv3
        } else if x == 0x0301 {
            ProtocolVersion::TLSv1_0
        } else if x == 0x0302 {
            ProtocolVersion::TLSv1_1
        } else if x == 0x0303 {
            ProtocolVersion::TLSv1_2
        } else if x == 0x0304 {
            ProtocolVersion::TLSv1_3
        } else {
            ProtocolVersion::Unknown(x)
        }
    }

    /// The value that the number `x` is read as.
    pub fn from_u16(x: u16) -> (v: Self)
        ensures
            v == Self::spec_from_u16(x),
            v@ == x,
    {
        match x {
            0x0200 => ProtocolVersion::SSLv2,
            0x0300 => ProtocolVersion::SSLv3,
            0x0301 => ProtocolVersion::TLSv1_0,
            0x0302 => ProtocolVersion::TLSv1_1,
            0x0303 => ProtocolVersion::TLSv1_2,
            0x0304 => ProtocolVersion::TLSv1_3,
            _ => ProtocolVersion::Unknown(x),
        }
    }

    /// The number that stands for this value on the wire.
    pub fn get_u16(&self) -> (x: u16)
        ensures
            x == self@,
    {
        match self {
            ProtocolVersion::SSLv2 => 0x0200,
            ProtocolVersion::SSLv3 => 0x0300,
            ProtocolVersion::TLSv1_0 => 0x0301,
            ProtocolVersion::TLSv1_1 => 0x0302,
            ProtocolVersion::TLSv1_2 => 0x0303,
            ProtocolVersion::TLSv1_3 => 0x0304,
            ProtocolVersion::Unknown(x) => *x,
        }
    }

    /// Appends the wire form of this value.
    pub fn encode(&self, bytes: &mut Vec<u8>)
        ensures
            final(bytes)@ == old(bytes)@ + be16(self@),
    {
        encode_u16(self.get_u16(), bytes);
    }

    /// Reads one value, or nothing when the input is too short for it.
    pub fn read(r: &mut Reader) -> (out: Option<Self>)
        ensures
            old(r).remaining().len() >= 2 ==> out == Some(Self::spec_from_u16(from_be16(old(r).remaining())))
                && final(r).advanced(*old(r), 2),
            old(r).remaining().len() < 2 ==> out is None && final(r).advanced(*old(r), 0),
    {
        match read_u16(r) {
            Some(x) => Some(Self::from_u16(x)),
            None => None,
        }
    }

    /// A number is read as a value that is written as that number again.
    pub proof fn lemma_from_u16_view(x: u16)
        ensures
            Self::spec_from_u16(x)@ == x,
    {
    }
}

/// The kind of a handshake message.
#[allow(non_camel_case_types)]
#[derive(Clone, Copy, Debug, PartialEq, Eq, Structural)]
pub enum HandshakeType {
    HelloRequest,
    ClientHello,
    ServerHello,
    NewSessionTicket,
    EndOfEarlyData,
    HelloRetryRequest,
    EncryptedExtensions,
    Certificate,
    ServerKeyExchange,
    CertificateRequest,
    ServerHelloDone,
    CertificateVerify,
    ClientKeyExchange,
    Finished,
    CertificateURL,
    CertificateStatus,
    KeyUpdate,
    MessageHash,
    Unknown(u8),
}

impl View for HandshakeType {
    type V = u8;

    open spec fn view(&self) -> u8 {
        match self {
            HandshakeType::HelloRequest => 0,
            HandshakeType::ClientHello => 1,
            HandshakeType::ServerHello => 2,
            HandshakeType::NewSessionTicket => 4,
            HandshakeType::EndOfEarlyData => 5,
            HandshakeType::HelloRetryRequest => 6,
            HandshakeType::EncryptedExtensions => 8,
            HandshakeType::Certificate => 11,
            HandshakeType::ServerKeyExchange => 12,
            HandshakeType::CertificateRequest => 13,
            HandshakeType::ServerHelloDone => 14,
            HandshakeType::CertificateVerify => 15,
            HandshakeType::ClientKeyExchange => 16,
            HandshakeType::Finished => 20,
            HandshakeType::CertificateURL => 21,
            HandshakeType::CertificateStatus => 22,
            HandshakeType::KeyUpdate => 24,
            HandshakeType::MessageHash => 254,
            HandshakeType::Unknown(x) => *x,
        }
    }
}

impl HandshakeType {
    /// The value that the number `x` is read as: its name where it has one.
    pub open spec fn spec_from_u8(x: u8) -> Self {
        if x == 0 {
            HandshakeType::HelloRequest
        } else if x == 1 {
            HandshakeType::ClientHello
        } else if x == 2 {
            HandshakeType::ServerHello
        } else if x == 4 {
            HandshakeType::NewSessionTicket
        } else if x == 5 {
            HandshakeType::EndOfEarlyData
        } else if x == 6 {
            HandshakeType::HelloRetryRequest
        } else if x == 8 {
            HandshakeType::EncryptedExtensions
        } else if x == 11 {
            HandshakeType::Certificate
        } else if x == 12 {
            HandshakeType::ServerKeyExchange
        } else if x == 13 {
            HandshakeType::CertificateRequest
        } else if x == 14 {
            HandshakeType::ServerHelloDone
        } else if x == 15 {
            HandshakeType::CertificateVerify
        } else if x == 16 {
            HandshakeType::ClientKeyExchange
        } else if x == 20 {
            HandshakeType::Finished
        } else if x == 21 {
            HandshakeType::CertificateURL
        } else if x == 22 {
            HandshakeType::CertificateStatus
        } else if x == 24 {
            HandshakeType::KeyUpdate
        } else if x == 254 {
            HandshakeType::MessageHash
        } else {
            HandshakeType::Unknown(x)
        }
    }

    /// The value that the number `x` is read as.
    pub fn from_u8(x: u8) -> (v: Self)
        ensures
            v == Self::spec_from_u8(x),
            v@ == x,
    {
        match x {
            0 => HandshakeType::HelloRequest,
            1 => HandshakeType::ClientHello,
            2 => HandshakeType::ServerHello,
            4 => HandshakeType::NewSessionTicket,
            5 => HandshakeType::EndOfEarlyData,
            6 => HandshakeType::HelloRetryRequest,
            8 => HandshakeType::EncryptedExtensions,
            11 => HandshakeType::Certificate,
            12 => HandshakeType::ServerKeyExchange,
            13 => HandshakeType::CertificateRequest,
            14 => HandshakeType::ServerHelloDone,
            15 => HandshakeType::CertificateVerify,
            16 => HandshakeType::ClientKeyExchange,
            20 => HandshakeType::Finished,
            21 => HandshakeType::CertificateURL,
            22 => HandshakeType::CertificateStatus,
            24 => HandshakeType::KeyUpdate,
            254 => HandshakeType::MessageHash,
            _ => HandshakeType::Unknown(x),
        }
    }

    /// The number that stands for this value on the wire.
    pub fn get_u8(&self) -> (x: u8)
        ensures
            x == self@,
    {
        match self {
            HandshakeType::HelloRequest => 0,
            HandshakeType::ClientHello => 1,
            HandshakeType::ServerHello => 2,
            HandshakeType::NewSessionTicket => 4,
            HandshakeType::EndOfEarlyData => 5,
            HandshakeType::HelloRetryRequest => 6,
            HandshakeType::EncryptedExtensions => 8,
            HandshakeType::Certificate => 11,
            HandshakeType::ServerKeyExchange => 12,
            HandshakeType::CertificateRequest => 13,
            HandshakeType::ServerHelloDone => 14,
            HandshakeType::CertificateVerify => 15,
            HandshakeType::ClientKeyExchange => 16,
            HandshakeType::Finished => 20,
            HandshakeType::CertificateURL => 21,
            HandshakeType::CertificateStatus => 22,
            HandshakeType::KeyUpdate => 24,
            HandshakeType::MessageHash => 254,
            HandshakeType::Unknown(x) => *x,
        }
    }

    /// Appends the wire form of this value.
    pub fn encode(&self, bytes: &mut Vec<u8>)
        ensures
            final(bytes)@ == old(bytes)@.push(self@),
    {
        encode_u8(self.get_u8(), bytes);
    }

    /// Reads one value, or nothing when the input is too short for it.
    pub fn read(r: &mut Reader) -> (out: Option<Self>)
        ensures
            old(r).remaining().len() >= 1 ==> out == Some(Self::spec_from_u8(old(r).remaining()[0]))
                && final(r).advanced(*old(r), 1),
            old(r).remaining().len() < 1 ==> out is None && final(r).advanced(*old(r), 0),
    {
        match read_u8(r) {
            Some(x) => Some(Self::from_u8(x)),
            None => None,
        }
    }

    /// A number is read as a value that is written as that number again.
    pub proof fn lemma_from_u8_view(x: u8)
        ensures
            Self::spec_from_u8(x)@ == x,
    {
    }
}

/// How severe an alert is.
#[allow(non_camel_case_types)]
#[derive(Clone, Copy, Debug, PartialEq, Eq, Structural)]
pub enum AlertLevel {
    Warning,
    Fatal,
    Unknown(u8),
}

impl View for AlertLevel {
    type V = u8;

    open spec fn view(&self) -> u8 {
        match self {
            AlertLevel::Warning => 1,
            AlertLevel::Fatal => 2,
            AlertLevel::Unknown(x) => *x,
        }
    }
}

impl AlertLevel {
    /// The value that the number `x` is read as: its name where it has one.
    pub open spec fn spec_from_u8(x: u8) -> Self {
        if x == 1 {
            AlertLevel::Warning
        } else if x == 2 {
            AlertLevel::Fatal
        } else {
            AlertLevel::Unknown(x)
        }
    }

    /// The value that the number `x` is read as.
    pub fn from_u8(x: u8) -> (v: Self)
        ensures
            v == Self::spec_from_u8(x),
            v@ == x,
    {
        match x {
            1 => AlertLevel::Warning,
            2 => AlertLevel::Fatal,
            _ => AlertLevel::Unknown(x),
        }
    }

    /// The number that stands for this value on the wire.
    pub fn get_u8(&self) -> (x: u8)
        ensures
            x == self@,
    {
        match self {
            AlertLevel::Warning => 1,
            AlertLevel::Fatal => 2,
            AlertLevel::Unknown(x) => *x,
        }
    }

    /// Appends the wire form of this value.
    pub fn encode(&self, bytes: &mut Vec<u8>)
        ensures
            final(bytes)@ == old(bytes)@.push(self@),
    {
        encode_u8(self.get_u8(), bytes);
    }

    /// Reads one value, or nothing when the input is too short for it.
    pub fn read(r: &mut Reader) -> (out: Option<Self>)
        ensures
            old(r).remaining().len() >= 1 ==> out == Some(Self::spec_from_u8(old(r).remaining()[0]))
                && final(r).advanced(*old(r), 1),
            old(r).remaining().len() < 1 ==> out is None && final(r).advanced(*old(r), 0),
    {
        match read_u8(r) {
            Some(x) => Some(Self::from_u8(x)),
            None => None,
        }
    }

    /// A number is read as a value that is written as that number again.
    pub proof fn lemma_from_u8_view(x: u8)
        ensures
            Self::spec_from_u8(x)@ == x,
    {
    }
}

/// What an alert reports.
#[allow(non_camel_case_types)]
#[derive(Clone, Copy, Debug, PartialEq, Eq, Structural)]
pub enum AlertDescription {
    CloseNotify,
    UnexpectedMessage,
    BadRecordMac,
    DecryptionFailed,
    RecordOverflow,
    DecompressionFailure,
    HandshakeFailure,
    NoCertificate,
    BadCertificate,
    UnsupportedCertificate,
    CertificateRevoked,
    CertificateExpired,
    CertificateUnknown,
    IllegalParameter,
    UnknownCA,
    AccessDenied,
    DecodeError,
    DecryptError,
    ExportRestriction,
    ProtocolVersion,
    InsufficientSecurity,
    InternalError,
    InappropriateFallback,
    UserCanceled,
    NoRenegotiation,
    MissingExtension,
    UnsupportedExtension,
    CertificateUnobtainable,
    UnrecognisedName,
    BadCertificateStatusResponse,
    BadCertificateHashValue,
    UnknownPSKIdentity,
    CertificateRequired,
    NoApplicationProtocol,
    Unknown(u8),
}

impl View for AlertDescription {
    type V = u8;

    open spec fn view(&self) -> u8 {
        match self {
            AlertDescription::CloseNotify => 0,
            AlertDescription::UnexpectedMessage => 10,
            AlertDescription::BadRecordMac => 20,
            AlertDescription::DecryptionFailed => 21,
            AlertDescription::RecordOverflow => 22,
            AlertDescription::DecompressionFailure => 30,
            AlertDescription::HandshakeFailure => 40,
            AlertDescription::NoCertificate => 41,
            AlertDescription::BadCertificate => 42,
            AlertDescription::UnsupportedCertificate => 43,
            AlertDescription::CertificateRevoked => 44,
            AlertDescription::CertificateExpired => 45,
            AlertDescription::CertificateUnknown => 46,
            AlertDescription::IllegalParameter => 47,
            AlertDescription::UnknownCA => 48,
            AlertDescription::AccessDenied => 49,
            AlertDescription::DecodeError => 50,
            AlertDescription::DecryptError => 51,
            AlertDescription::ExportRestriction => 60,
            AlertDescription::ProtocolVersion => 70,
            AlertDescription::InsufficientSecurity => 71,
            AlertDescription::InternalError => 80,
            AlertDescription::InappropriateFallback => 86,
            AlertDescription::UserCanceled => 90,
            AlertDescription::NoRenegotiation => 100,
            AlertDescription::MissingExtension => 109,
            AlertDescription::UnsupportedExtension => 110,
            AlertDescription::CertificateUnobtainable => 111,
            AlertDescription::UnrecognisedName => 112,
            AlertDescription::BadCertificateStatusResponse => 113,
            AlertDescription::BadCertificateHashValue => 114,
            AlertDescription::UnknownPSKIdentity => 115,
            AlertDescription::CertificateRequired => 116,
            AlertDescription::NoApplicationProtocol => 120,
            AlertDescription::Unknown(x) => *x,
        }
    }
}

impl AlertDescription {
    /// The value that the number `x` is read as: its name where it has one.
    pub open spec fn spec_from_u8(x: u8) -> Self {
        if x == 0 {
            AlertDescription::CloseNotify
        } else if x == 10 {
            AlertDescription::UnexpectedMessage
        } else if x == 20 {
            AlertDescription::BadRecordMac
        } else if x == 21 {
            AlertDescription::DecryptionFailed
        } else if x == 22 {
            AlertDescription::RecordOverflow
        } else if x == 30 {
            AlertDescription::DecompressionFailure
        } else if x == 40 {
            AlertDescription::HandshakeFailure
        } else if x == 41 {
            AlertDescription::NoCertificate
        } else if x == 42 {
            AlertDescription::BadCertificate
        } else if x == 43 {
            AlertDescription::UnsupportedCertificate
        } else if x == 44 {
            AlertDescription::CertificateRevoked
        } else if x == 45 {
            AlertDescription::CertificateExpired
        } else if x == 46 {
            AlertDescription::CertificateUnknown
        } else if x == 47 {
            AlertDescription::IllegalParameter
        } else if x == 48 {
            AlertDescription::UnknownCA
        } else if x == 49 {
            AlertDescription::AccessDenied
        } else if x == 50 {
            AlertDescription::DecodeError
        } else if x == 51 {
            AlertDescription::DecryptError
        } else if x == 60 {
            AlertDescription::ExportRestriction
        } else if x == 70 {
            AlertDescription::ProtocolVersion
        } else if x == 71 {
            AlertDescription::InsufficientSecurity
        } else if x == 80 {
            AlertDescription::InternalError
        } else if x == 86 {
            AlertDescription::InappropriateFallback
        } else if x == 90 {
            AlertDescription::UserCanceled
        } else if x == 100 {
            AlertDescription::NoRenegotiation
        } else if x == 109 {
            AlertDescription::MissingExtension
        } else if x == 110 {
            AlertDescription::UnsupportedExtension
        } else if x == 111 {
            AlertDescription::CertificateUnobtainable
        } else if x == 112 {
            AlertDescription::UnrecognisedName
        } else if x == 113 {
            AlertDescription::BadCertificateStatusResponse
        } else if x == 114 {
            AlertDescription::BadCertificateHashValue
        } else if x == 115 {
            AlertDescription::UnknownPSKIdentity
        } else if x == 116 {
            AlertDescription::CertificateRequired
        } else if x == 120 {
            AlertDescription::NoApplicationProtocol
        } else {
            AlertDescription::Unknown(x)
        }
    }

    /// The value that the number `x` is read as.
    pub fn from_u8(x: u8) -> (v: Self)
        ensures
            v == Self::spec_from_u8(x),
            v@ == x,
    {
        match x {
            0 => AlertDescription::CloseNotify,
            10 => AlertDescription::UnexpectedMessage,
            20 => AlertDescription::BadRecordMac,
            21 => AlertDescription::DecryptionFailed,
            22 => AlertDescription::RecordOverflow,
            30 => AlertDescription::DecompressionFailure,
            40 => AlertDescription::HandshakeFailure,
            41 => AlertDescription::NoCertificate,
            42 => AlertDescription::BadCertificate,
            43 => AlertDescription::UnsupportedCertificate,
            44 => AlertDescription::CertificateRevoked,
            45 => AlertDescription::CertificateExpired,
            46 => AlertDescription::CertificateUnknown,
            47 => AlertDescription::IllegalParameter,
            48 => AlertDescription::UnknownCA,
            49 => AlertDescription::AccessDenied,
            50 => AlertDescription::DecodeError,
            51 => AlertDescription::DecryptError,
            60 => AlertDescription::ExportRestriction,
            70 => AlertDescription::ProtocolVersion,
            71 => AlertDescription::InsufficientSecurity,
            80 => AlertDescription::InternalError,
            86 => AlertDescription::InappropriateFallback,
            90 => AlertDescription::UserCanceled,
            100 => AlertDescription::NoRenegotiation,
            109 => AlertDescription::MissingExtension,
            110 => AlertDescription::UnsupportedExtension,
            111 => AlertDescription::CertificateUnobtainable,
            112 => AlertDescription::UnrecognisedName,
            113 => AlertDescription::BadCertificateStatusResponse,
            114 => AlertDescription::BadCertificateHashValue,
            115 => AlertDescription::UnknownPSKIdentity,
            116 => AlertDescription::CertificateRequired,
            120 => AlertDescription::NoApplicationProtocol,
            _ => AlertDescription::Unknown(x),
        }
    }

    /// The number that stands for this value on the wire.
    pub fn get_u8(&self) -> (x: u8)
        ensures
            x == self@,
    {
        match self {
            AlertDescription::CloseNotify => 0,
            AlertDescription::UnexpectedMessage => 10,
            AlertDescription::BadRecordMac => 20,
            AlertDescription::DecryptionFailed => 21,
            AlertDescription::RecordOverflow => 22,
            AlertDescription::DecompressionFailure => 30,
            AlertDescription::HandshakeFailure => 40,
            AlertDescription::NoCertificate => 41,
            AlertDescription::BadCertificate => 42,
            AlertDescription::UnsupportedCertificate => 43,
            AlertDescription::CertificateRevoked => 44,
            AlertDescription::CertificateExpired => 45,
            AlertDescription::CertificateUnknown => 46,
            AlertDescription::IllegalParameter => 47,
            AlertDescription::UnknownCA => 48,
            AlertDescription::AccessDenied => 49,
            AlertDescription::DecodeError => 50,
            AlertDescription::DecryptError => 51,
            AlertDescription::ExportRestriction => 60,
            AlertDescription::ProtocolVersion => 70,
            AlertDescription::InsufficientSecurity => 71,
            AlertDescription::InternalError => 80,
            AlertDescription::InappropriateFallback => 86,
            AlertDescription::UserCanceled => 90,
            AlertDescription::NoRenegotiation => 100,
            AlertDescription::MissingExtension => 109,
            AlertDescription::UnsupportedExtension => 110,
            AlertDescription::CertificateUnobtainable => 111,
            AlertDescription::UnrecognisedName => 112,
            AlertDescription::BadCertificateStatusResponse => 113,
            AlertDescription::BadCertificateHashValue => 114,
            AlertDescription::UnknownPSKIdentity => 115,
            AlertDescription::CertificateRequired => 116,
            AlertDescription::NoApplicationProtocol => 120,
            AlertDescription::Unknown(x) => *x,
        }
    }

    /// Appends the wire form of this value.
    pub fn encode(&self, bytes: &mut Vec<u8>)
        ensures
            final(bytes)@ == old(bytes)@.push(self@),
    {
        encode_u8(self.get_u8(), bytes);
    }

    /// Reads one value, or nothing when the input is too short for it.
    pub fn read(r: &mut Reader) -> (out: Option<Self>)
        ensures
            old(r).remaining().len() >= 1 ==> out == Some(Self::spec_from_u8(old(r).remaining()[0]))
                && final(r).advanced(*old(r), 1),
            old(r).remaining().len() < 1 ==> out is None && final(r).advanced(*old(r), 0),
    {
        match read_u8(r) {
            Some(x) => Some(Self::from_u8(x)),
            None => None,
        }
    }

    /// A number is read as a value that is written as that number again.
    pub proof fn lemma_from_u8_view(x: u8)
        ensures
            Self::spec_from_u8(x)@ == x,
    {
    }
}

/// The direction of a heartbeat message.
#[allow(non_camel_case_types)]
#[derive(Clone, Copy, Debug, PartialEq, Eq, Structural)]
pub enum HeartbeatMessageType {
    Request,
    Response,
    Unknown(u8),
}

impl View for HeartbeatMessageType {
    type V = u8;

    open spec fn view(&self) -> u8 {
        match self {
            HeartbeatMessageType::Request => 1,
            HeartbeatMessageType::Response => 2,
            HeartbeatMessageType::Unknown(x) => *x,
        }
    }
}

impl HeartbeatMessageType {
    /// The value that the number `x` is read as: its name where it has one.
    pub open spec fn spec_from_u8(x: u8) -> Self {
        if x == 1 {
            HeartbeatMessageType::Request
        } else if x == 2 {
            HeartbeatMessageType::Response
        } else {
            HeartbeatMessageType::Unknown(x)
        }
    }

    /// The value that the number `x` is read as.
    pub fn from_u8(x: u8) -> (v: Self)
        ensures
            v == Self::spec_from_u8(x),
            v@ == x,
    {
        match x {
            1 => HeartbeatMessageType::Request,
            2 => HeartbeatMessageType::Response,
            _ => HeartbeatMessageType::Unknown(x),
        }
    }

    /// The number that stands for this value on the wire.
    pub fn get_u8(&self) -> (x: u8)
        ensures
            x == self@,
    {
        match self {
            HeartbeatMessageType::Request => 1,
            HeartbeatMessageType::Response => 2,
            HeartbeatMessageType::Unknown(x) => *x,
        }
    }

    /// Appends the wire form of this value.
    pub fn encode(&self, bytes: &mut Vec<u8>)
        ensures
            final(bytes)@ == old(bytes)@.push(self@),
    {
        encode_u8(self.get_u8(), bytes);
    }

    /// Reads one value, or nothing when the input is too short for it.
    pub fn read(r: &mut Reader) -> (out: Option<Self>)
        ensures
            old(r).remaining().len() >= 1 ==> out == Some(Self::spec_from_u8(old(r).remaining()[0]))
                && final(r).advanced(*old(r), 1),
            old(r).remaining().len() < 1 ==> out is None && final(r).advanced(*old(r), 0),
    {
        match read_u8(r) {
            Some(x) => Some(Self::from_u8(x)),
            None => None,
        }
    }

    /// A number is read as a value that is written as that number again.
    pub proof fn lemma_from_u8_view(x: u8)
        ensures
            Self::spec_from_u8(x)@ == x,
    {
    }
}

} // verus!
