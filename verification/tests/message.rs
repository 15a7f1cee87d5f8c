use tls_core::error::Error;
use tls_core::msgs::alert::AlertMessagePayload;
use tls_core::msgs::base::Payload;
use tls_core::msgs::ccs::ChangeCipherSpecPayload;
use tls_core::msgs::codec::{
    encode_bytes, encode_u16, encode_u24, encode_u8, read_u16, read_u24, read_u8, Reader,
};
use tls_core::msgs::enums::{
    AlertDescription, AlertLevel, ContentType, HandshakeType, HeartbeatMessageType,
    ProtocolVersion,
};
use tls_core::msgs::handshake::HandshakeMessagePayload;
use tls_core::msgs::heartbeat::HeartbeatPayload;
use tls_core::msgs::message::{Message, MessageError, MessagePayload, OpaqueMessage};

fn record(typ: u8, version: u16, declared_len: u16, body_len: usize) -> Vec<u8> {
    let mut bytes = vec![typ, (version >> 8) as u8, version as u8];
    bytes.push((declared_len >> 8) as u8);
    bytes.push(declared_len as u8);
    for i in 0..body_len {
        bytes.push(i as u8);
    }
    bytes
}

fn read_err(bytes: &[u8]) -> MessageError {
    let mut r = Reader::init(bytes);
    match OpaqueMessage::read(&mut r) {
        Ok(_) => panic!("a record was read"),
        Err(e) => e,
    }
}

#[test]
fn reader_walks_the_buffer() {
    let bytes = [1u8, 2, 3, 4, 5, 6];
    let mut r = Reader::init(&bytes);
    assert_eq!(r.left(), 6);
    assert_eq!(r.used(), 0);
    assert!(r.any_left());
    assert_eq!(r.take(2), Some(&bytes[0..2]));
    assert_eq!(r.used(), 2);
    assert_eq!(r.take(5), None);
    assert_eq!(r.used(), 2);
    {
        let mut sub = r.sub(3).unwrap();
        assert_eq!(sub.left(), 3);
        assert_eq!(sub.rest(), &bytes[2..5]);
        assert!(!sub.any_left());
    }
    assert!(r.sub(2).is_none());
    assert_eq!(r.left(), 1);
    assert_eq!(r.rest(), &bytes[5..6]);
    assert_eq!(r.left(), 0);
    assert_eq!(r.take(0), Some(&bytes[6..6]));
    assert_eq!(r.rest(), &bytes[6..6]);
}

#[test]
fn integers_are_big_endian() {
    let mut out = Vec::new();
    encode_u8(0xab, &mut out);
    encode_u16(0x1234, &mut out);
    encode_u24(0x00c0ffee, &mut out);
    encode_u24(0xff000001, &mut out);
    encode_bytes(&[7, 8], &mut out);
    assert_eq!(out, vec![0xab, 0x12, 0x34, 0xc0, 0xff, 0xee, 0x00, 0x00, 0x01, 7, 8]);

    let mut r = Reader::init(&out);
    assert_eq!(read_u8(&mut r), Some(0xab));
    assert_eq!(read_u16(&mut r), Some(0x1234));
    assert_eq!(read_u24(&mut r), Some(0xc0ffee));
    assert_eq!(read_u24(&mut r), Some(1));
    assert_eq!(read_u24(&mut r), None);
    assert_eq!(r.left(), 2);
    assert_eq!(read_u16(&mut r), Some(0x0708));
    assert_eq!(read_u8(&mut r), None);
    assert_eq!(read_u16(&mut r), None);
}

#[test]
fn registries_name_their_code_points() {
    assert_eq!(ContentType::from_u8(20), ContentType::ChangeCipherSpec);
    assert_eq!(ContentType::from_u8(21), ContentType::Alert);
    assert_eq!(ContentType::from_u8(22), ContentType::Handshake);
    assert_eq!(ContentType::from_u8(23), ContentType::ApplicationData);
    assert_eq!(ContentType::from_u8(24), ContentType::Heartbeat);
    assert_eq!(ContentType::from_u8(25), ContentType::Unknown(25));
    assert_eq!(ProtocolVersion::from_u16(0x0303), ProtocolVersion::TLSv1_2);
    assert_eq!(ProtocolVersion::from_u16(0x0304), ProtocolVersion::TLSv1_3);
    assert_eq!(ProtocolVersion::from_u16(0x0305), ProtocolVersion::Unknown(0x0305));
    assert_eq!(ProtocolVersion::SSLv2.get_u16(), 0x0200);
    assert_eq!(HandshakeType::from_u8(254), HandshakeType::MessageHash);
    assert_eq!(HandshakeType::KeyUpdate.get_u8(), 24);
    assert_eq!(AlertLevel::from_u8(2), AlertLevel::Fatal);
    assert_eq!(AlertDescription::from_u8(50), AlertDescription::DecodeError);
    assert_eq!(AlertDescription::NoApplicationProtocol.get_u8(), 120);
    assert_eq!(HeartbeatMessageType::from_u8(1), HeartbeatMessageType::Request);
    for x in 0..=255u8 {
        assert_eq!(ContentType::from_u8(x).get_u8(), x);
        assert_eq!(HandshakeType::from_u8(x).get_u8(), x);
        assert_eq!(AlertLevel::from_u8(x).get_u8(), x);
        assert_eq!(AlertDescription::from_u8(x).get_u8(), x);
        assert_eq!(HeartbeatMessageType::from_u8(x).get_u8(), x);
    }
    for v in 0..=0xffffu16 {
        assert_eq!(ProtocolVersion::from_u16(v).get_u16(), v);
    }
}

#[test]
fn record_round_trip() {
    let types = [
        ContentType::ChangeCipherSpec,
        ContentType::Alert,
        ContentType::Handshake,
        ContentType::ApplicationData,
        ContentType::Heartbeat,
    ];
    let versions = [ProtocolVersion::TLSv1_2, ProtocolVersion::TLSv1_3, ProtocolVersion::Unknown(0x03ff)];
    for typ in types {
        for version in versions {
            for len in [0usize, 1, 255, 256, 16384, 18431] {
                let body: Vec<u8> = (0..len).map(|i| (i * 7) as u8).collect();
                let m = OpaqueMessage { typ, version, payload: Payload::new(body.clone()) };
                let bytes = m.encode();
                assert_eq!(bytes.len(), 5 + len);
                assert_eq!(bytes[0], typ.get_u8());
                assert_eq!(bytes[3], (len >> 8) as u8);
                assert_eq!(bytes[4], len as u8);

                let mut r = Reader::init(&bytes);
                let back = OpaqueMessage::read(&mut r).unwrap();
                assert_eq!(back.typ, typ);
                assert_eq!(back.version, version);
                assert_eq!(back.payload.0, body);
                assert!(!r.any_left());
            }
        }
    }
}

#[test]
fn record_is_read_from_the_front_and_the_rest_is_left() {
    let mut bytes = vec![23u8, 3, 3, 0, 2, 0xaa, 0xbb];
    bytes.extend_from_slice(&[21, 3, 3, 0, 2, 2, 50]);
    let mut r = Reader::init(&bytes);
    let first = OpaqueMessage::read(&mut r).unwrap();
    assert_eq!(first.typ, ContentType::ApplicationData);
    assert_eq!(first.payload.0, vec![0xaa, 0xbb]);
    assert_eq!(r.used(), 7);
    let second = OpaqueMessage::read(&mut r).unwrap();
    assert_eq!(second.typ, ContentType::Alert);
    assert_eq!(second.payload.0, vec![2, 50]);
    assert_eq!(r.left(), 0);
}

#[test]
fn oversize_length_is_refused() {
    assert_eq!(OpaqueMessage::MAX_PAYLOAD, 18432);
    assert_eq!(OpaqueMessage::HEADER_SIZE, 5);
    assert_eq!(OpaqueMessage::MAX_WIRE_SIZE, 18437);
    assert_eq!(read_err(&record(23, 0x0303, 18432, 18432)), MessageError::IllegalLength);
    assert_eq!(read_err(&record(23, 0x0303, 18432, 0)), MessageError::IllegalLength);
    assert_eq!(read_err(&record(23, 0x0303, 0xffff, 0)), MessageError::IllegalLength);

    let bytes = record(23, 0x0303, 18431, 18431);
    let mut r = Reader::init(&bytes);
    let m = OpaqueMessage::read(&mut r).unwrap();
    assert_eq!(m.payload.0.len(), 18431);
    // the header parses and the payload is asked for
    assert_eq!(read_err(&record(23, 0x0303, 18431, 18430)), MessageError::TooShortForLength);
}

#[test]
fn unknown_content_type_is_refused() {
    assert_eq!(read_err(&record(0, 0x0303, 1, 1)), MessageError::IllegalContentType);
    assert_eq!(read_err(&record(19, 0x0303, 0, 0)), MessageError::IllegalContentType);
    assert_eq!(read_err(&record(25, 0x0303, 0, 0)), MessageError::IllegalContentType);

    let m = OpaqueMessage {
        typ: ContentType::Unknown(0),
        version: ProtocolVersion::TLSv1_2,
        payload: Payload::new(vec![1, 2, 3]),
    };
    let bytes = m.encode();
    assert_eq!(bytes, vec![0, 3, 3, 0, 3, 1, 2, 3]);
    assert_eq!(read_err(&bytes), MessageError::IllegalContentType);
}

#[test]
fn version_must_have_major_three() {
    assert_eq!(read_err(&record(22, 0x0100, 0, 0)), MessageError::IllegalProtocolVersion);
    assert_eq!(read_err(&record(22, 0x0200, 0, 0)), MessageError::IllegalProtocolVersion);
    assert_eq!(read_err(&record(22, 0x0400, 0, 0)), MessageError::IllegalProtocolVersion);
    assert_eq!(read_err(&record(22, 0xfefd, 0, 0)), MessageError::IllegalProtocolVersion);
    for version in [0x0300u16, 0x0301, 0x0303, 0x0304, 0x0305, 0x03ff] {
        let bytes = record(22, version, 1, 1);
        let mut r = Reader::init(&bytes);
        let m = OpaqueMessage::read(&mut r).unwrap();
        assert_eq!(m.version.get_u16(), version);
    }
}

#[test]
fn truncated_input_waits_for_more() {
    let full = record(22, 0x0303, 4, 4);
    for n in 0..5 {
        assert_eq!(read_err(&full[..n]), MessageError::TooShortForHeader);
    }
    for n in 5..9 {
        assert_eq!(read_err(&full[..n]), MessageError::TooShortForLength);
    }
    let mut r = Reader::init(&full);
    assert!(OpaqueMessage::read(&mut r).is_ok());
}

#[test]
fn checks_come_in_order() {
    // length before content type before version before completeness
    assert_eq!(read_err(&record(0, 0x0100, 18432, 0)), MessageError::IllegalLength);
    assert_eq!(read_err(&record(0, 0x0100, 10, 0)), MessageError::IllegalContentType);
    assert_eq!(read_err(&record(22, 0x0100, 10, 0)), MessageError::IllegalProtocolVersion);
    assert_eq!(read_err(&record(22, 0x0303, 10, 0)), MessageError::TooShortForLength);
}

#[test]
fn reader_stops_behind_what_was_read() {
    let cases: Vec<(Vec<u8>, usize)> = vec![
        (vec![], 0),
        (vec![22], 1),
        (vec![22, 3], 1),
        (vec![22, 3, 3], 3),
        (vec![22, 3, 3, 0], 3),
        (record(22, 0x0303, 18432, 3), 5),
        (record(0, 0x0303, 3, 3), 5),
        (record(22, 0x0100, 3, 3), 5),
        (record(22, 0x0303, 3, 2), 5),
        (record(22, 0x0303, 3, 3), 8),
        (record(22, 0x0303, 3, 6), 8),
    ];
    for (bytes, used) in cases {
        let mut r = Reader::init(&bytes);
        let _ = OpaqueMessage::read(&mut r);
        assert_eq!(r.used(), used);
    }
}

#[test]
fn length_field_is_the_low_sixteen_bits() {
    let m = OpaqueMessage {
        typ: ContentType::ApplicationData,
        version: ProtocolVersion::TLSv1_2,
        payload: Payload::new(vec![0u8; 65536 + 3]),
    };
    let bytes = m.encode();
    assert_eq!(bytes.len(), 5 + 65536 + 3);
    assert_eq!(&bytes[..5], &[23, 3, 3, 0, 3]);
}

#[test]
fn borrow_keeps_the_fields() {
    let m = OpaqueMessage {
        typ: ContentType::Heartbeat,
        version: ProtocolVersion::TLSv1_1,
        payload: Payload::new(vec![1, 2, 3]),
    };
    let b = m.borrow();
    assert_eq!(b.typ, ContentType::Heartbeat);
    assert_eq!(b.version, ProtocolVersion::TLSv1_1);
    assert_eq!(b.payload, &[1u8, 2, 3][..]);
}

#[test]
fn payload_is_decoded_by_content_type() {
    let v = ProtocolVersion::TLSv1_2;

    match MessagePayload::new(ContentType::ApplicationData, v, Payload::new(vec![1, 2, 3])) {
        Ok(MessagePayload::ApplicationData(p)) => assert_eq!(p.0, vec![1, 2, 3]),
        _ => panic!("application data"),
    }
    match MessagePayload::new(ContentType::ApplicationData, v, Payload::empty()) {
        Ok(MessagePayload::ApplicationData(p)) => assert!(p.0.is_empty()),
        _ => panic!("application data"),
    }
    match MessagePayload::new(ContentType::Alert, v, Payload::new(vec![2, 40, 99])) {
        Ok(MessagePayload::Alert(a)) => {
            assert_eq!(a.level, AlertLevel::Fatal);
            assert_eq!(a.description, AlertDescription::HandshakeFailure);
        },
        _ => panic!("alert"),
    }
    match MessagePayload::new(ContentType::ChangeCipherSpec, v, Payload::new(vec![1])) {
        Ok(MessagePayload::ChangeCipherSpec(_)) => {},
        _ => panic!("change cipher spec"),
    }
    match MessagePayload::new(ContentType::Heartbeat, v, Payload::new(vec![1, 0, 2, 7, 8, 0, 0])) {
        Ok(MessagePayload::Heartbeat(h)) => {
            assert_eq!(h.typ, HeartbeatMessageType::Request);
            assert_eq!(h.payload.0, vec![7, 8]);
        },
        _ => panic!("heartbeat"),
    }
    match MessagePayload::new(ContentType::Handshake, v, Payload::new(vec![20, 0, 0, 2, 5, 6])) {
        Ok(MessagePayload::Handshake(h)) => {
            assert_eq!(h.typ, HandshakeType::Finished);
            assert_eq!(h.payload.0, vec![5, 6]);
        },
        _ => panic!("handshake"),
    }
}

#[test]
fn handshake_that_does_not_parse_is_taken_as_encrypted() {
    let v = ProtocolVersion::TLSv1_2;
    for body in [vec![], vec![20u8, 0, 0], vec![20, 0, 0, 3, 1, 2], vec![0xff; 40]] {
        match MessagePayload::new(ContentType::Handshake, v, Payload::new(body.clone())) {
            Ok(MessagePayload::TLS12EncryptedHandshake(p)) => assert_eq!(p.0, body),
            _ => panic!("encrypted handshake"),
        }
    }
}

#[test]
fn corrupt_payload_names_the_content_type() {
    let v = ProtocolVersion::TLSv1_2;
    let cases: Vec<(ContentType, Vec<u8>)> = vec![
        (ContentType::Alert, vec![]),
        (ContentType::Alert, vec![2]),
        (ContentType::ChangeCipherSpec, vec![]),
        (ContentType::Heartbeat, vec![1, 0]),
        (ContentType::Heartbeat, vec![1, 0, 3, 1, 2]),
        (ContentType::Unknown(0), vec![1, 2, 3]),
        (ContentType::Unknown(22), vec![20, 0, 0, 0]),
    ];
    for (typ, body) in cases {
        match MessagePayload::new(typ, v, Payload::new(body)) {
            Err(e) => assert_eq!(e, Error::CorruptMessagePayload(typ)),
            Ok(_) => panic!("decoded"),
        }
    }
}

#[test]
fn payloads_are_written_as_they_are_read() {
    let mut out = Vec::new();
    MessagePayload::Alert(AlertMessagePayload {
        level: AlertLevel::Warning,
        description: AlertDescription::CloseNotify,
    })
    .encode(&mut out);
    assert_eq!(out, vec![1, 0]);

    MessagePayload::ChangeCipherSpec(ChangeCipherSpecPayload {}).encode(&mut out);
    assert_eq!(out, vec![1, 0, 1]);

    let mut out = Vec::new();
    MessagePayload::Heartbeat(HeartbeatPayload {
        typ: HeartbeatMessageType::Response,
        payload: Payload::new(vec![9, 9, 9]),
    })
    .encode(&mut out);
    assert_eq!(out, vec![2, 0, 3, 9, 9, 9]);

    let mut out = vec![0xee];
    MessagePayload::Handshake(HandshakeMessagePayload {
        typ: HandshakeType::ClientHello,
        payload: Payload::new(vec![0u8; 300]),
    })
    .encode(&mut out);
    assert_eq!(&out[..5], &[0xee, 1, 0, 1, 44]);
    assert_eq!(out.len(), 5 + 300);

    let mut out = Vec::new();
    MessagePayload::TLS12EncryptedHandshake(Payload::new(vec![4, 5])).encode(&mut out);
    MessagePayload::ApplicationData(Payload::new(vec![6])).encode(&mut out);
    assert_eq!(out, vec![4, 5, 6]);
}

#[test]
fn content_type_of_each_payload() {
    let alert = MessagePayload::Alert(AlertMessagePayload {
        level: AlertLevel::Fatal,
        description: AlertDescription::InternalError,
    });
    assert_eq!(alert.content_type(), ContentType::Alert);
    assert_eq!(
        MessagePayload::Handshake(HandshakeMessagePayload::build_key_update_notify()).content_type(),
        ContentType::Handshake
    );
    assert_eq!(
        MessagePayload::TLS12EncryptedHandshake(Payload::empty()).content_type(),
        ContentType::Handshake
    );
    assert_eq!(
        MessagePayload::ChangeCipherSpec(ChangeCipherSpecPayload {}).content_type(),
        ContentType::ChangeCipherSpec
    );
    assert_eq!(
        MessagePayload::ApplicationData(Payload::empty()).content_type(),
        ContentType::ApplicationData
    );
    assert_eq!(
        MessagePayload::Heartbeat(HeartbeatPayload {
            typ: HeartbeatMessageType::Request,
            payload: Payload::empty(),
        })
        .content_type(),
        ContentType::Heartbeat
    );
}

#[test]
fn built_messages() {
    let alert = Message::build_alert(AlertLevel::Fatal, AlertDescription::DecodeError);
    assert_eq!(alert.version, ProtocolVersion::TLSv1_2);
    assert!(!alert.is_handshake_type(HandshakeType::KeyUpdate));
    assert_eq!(OpaqueMessage::from(alert).encode(), vec![21, 3, 3, 0, 2, 2, 50]);

    let ku = Message::build_key_update_notify();
    assert_eq!(ku.version, ProtocolVersion::TLSv1_3);
    assert!(ku.is_handshake_type(HandshakeType::KeyUpdate));
    assert!(!ku.is_handshake_type(HandshakeType::Finished));
    assert_eq!(OpaqueMessage::from(ku).encode(), vec![22, 3, 4, 0, 5, 24, 0, 0, 1, 0]);

    let marker = HandshakeMessagePayload::build_handshake_hash(&[1, 2, 3]);
    assert_eq!(marker.typ, HandshakeType::MessageHash);
    assert_eq!(marker.get_encoding(), vec![254, 0, 0, 3, 1, 2, 3]);
}

#[test]
fn application_data_passes_through_conversion() {
    let m = Message {
        version: ProtocolVersion::TLSv1_3,
        payload: MessagePayload::ApplicationData(Payload::new(vec![1, 2, 3])),
    };
    let o = OpaqueMessage::from(m);
    assert_eq!(o.typ, ContentType::ApplicationData);
    assert_eq!(o.version, ProtocolVersion::TLSv1_3);
    assert_eq!(o.payload.0, vec![1, 2, 3]);
}

#[test]
fn opaque_to_message_and_back() {
    let bytes = vec![22u8, 3, 3, 0, 6, 20, 0, 0, 2, 5, 6];
    let mut r = Reader::init(&bytes);
    let opaque = OpaqueMessage::read(&mut r).unwrap();
    let msg = Message::try_from(opaque).unwrap();
    assert_eq!(msg.version, ProtocolVersion::TLSv1_2);
    assert!(msg.is_handshake_type(HandshakeType::Finished));
    assert_eq!(OpaqueMessage::from(msg).encode(), bytes);

    let bad = OpaqueMessage {
        typ: ContentType::Alert,
        version: ProtocolVersion::TLSv1_2,
        payload: Payload::new(vec![1]),
    };
    match Message::try_from(bad) {
        Err(e) => assert_eq!(e, Error::CorruptMessagePayload(ContentType::Alert)),
        Ok(_) => panic!("decoded"),
    }
}

#[test]
fn payload_readers_stop_behind_what_they_read() {
    let bytes = [2u8, 40, 7];
    let mut r = Reader::init(&bytes);
    let a = AlertMessagePayload::read(&mut r).unwrap();
    assert_eq!(a, AlertMessagePayload {
        level: AlertLevel::Fatal,
        description: AlertDescription::HandshakeFailure,
    });
    assert_eq!(r.used(), 2);
    assert!(AlertMessagePayload::read(&mut r).is_none());
    assert_eq!(r.used(), 3);

    let bytes = [0x55u8];
    let mut r = Reader::init(&bytes);
    assert!(ChangeCipherSpecPayload::read(&mut r).is_some());
    assert_eq!(r.used(), 1);
    assert!(ChangeCipherSpecPayload::read(&mut r).is_none());
    assert_eq!(r.used(), 1);

    let bytes = [2u8, 0, 1, 9, 1, 0, 5, 1];
    let mut r = Reader::init(&bytes);
    let h = HeartbeatPayload::read(&mut r).unwrap();
    assert_eq!(h.typ, HeartbeatMessageType::Response);
    assert_eq!(h.payload.0, vec![9]);
    assert_eq!(r.used(), 4);
    assert!(HeartbeatPayload::read(&mut r).is_none());
    assert_eq!(r.used(), 7);

    let bytes = [1u8, 0, 0, 2, 8, 9, 2, 0, 1, 0, 7, 11];
    let mut r = Reader::init(&bytes);
    let h = HandshakeMessagePayload::read_version(&mut r, ProtocolVersion::TLSv1_3).unwrap();
    assert_eq!(h.typ, HandshakeType::ClientHello);
    assert_eq!(h.payload.0, vec![8, 9]);
    assert_eq!(r.used(), 6);
    assert!(HandshakeMessagePayload::read_version(&mut r, ProtocolVersion::TLSv1_3).is_none());
    assert_eq!(r.used(), 10);
    assert!(HandshakeMessagePayload::read_version(&mut r, ProtocolVersion::TLSv1_3).is_none());
    assert_eq!(r.used(), 11);
}

#[test]
fn clones_hold_the_same() {
    let m = Message {
        version: ProtocolVersion::TLSv1_3,
        payload: MessagePayload::Handshake(HandshakeMessagePayload::build_handshake_hash(&[4, 5])),
    };
    let copy = m.clone();
    assert_eq!(OpaqueMessage::from(copy).encode(), vec![22, 3, 4, 0, 6, 254, 0, 0, 2, 4, 5]);
    let o = OpaqueMessage::from(m);
    assert_eq!(o.clone().encode(), o.encode());
}
