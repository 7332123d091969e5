use mrt_rs::address::AddressFamily;
use mrt_rs::address::IpAddress;
use mrt_rs::bgp4mp_message::parse_peer_session;
use mrt_rs::bgp4mp_message::BGP4MPEnvelope;
use mrt_rs::bgp4mp_message::BGP4MPMessage;
use mrt_rs::bgp4mp_message::BGP4MPMessageAs4;
use mrt_rs::bgp4mp_message::BGP4MPMessageLocal;
use mrt_rs::bgp4mp_message::BGP4MPMessageLocalAs4;
use mrt_rs::bgp4mp_message::BGP4MPStateChange;
use mrt_rs::bgp4mp_message::BGP4MPStateChangeAs4;
use mrt_rs::bgp_message::BGPType;
use mrt_rs::error::DecodeError;
use mrt_rs::error::ErrorKind;
use mrt_rs::error::UnsupportedKind;
use mrt_rs::mrt_message::MRTHeader;
use mrt_rs::mrt_message::MRTMessage;
use mrt_rs::mrt_message::MRTSubType;
use mrt_rs::mrt_message::MRTType;
use mrt_rs::MRTScanner;

fn keepalive() -> Vec<u8> {
    let mut bytes = vec![0xFF; 16];
    bytes.extend_from_slice(&[0, 19, 4]);
    bytes
}

/// The body of a BGP4MP Message record between 10.0.0.1 and 10.0.0.2.
fn message_body(bgp: &[u8]) -> Vec<u8> {
    let mut bytes = vec![0xFD, 0xE8, 0xFD, 0xE9, 0, 3, 0, 1, 10, 0, 0, 1, 10, 0, 0, 2];
    bytes.extend_from_slice(bgp);
    bytes
}

/// The body of a BGP4MP MessageAs4 record between two IPv6 peers.
fn message_as4_body(bgp: &[u8]) -> Vec<u8> {
    let mut bytes = vec![0, 1, 0, 0, 0, 3, 0x0D, 0x40, 0, 7, 0, 2];
    bytes.extend_from_slice(&[0x20, 0x01, 0x0d, 0xb8, 0, 0, 0, 0, 0, 0, 0, 0, 0, 0, 0, 1]);
    bytes.extend_from_slice(&[0x20, 0x01, 0x0d, 0xb8, 0, 0, 0, 0, 0, 0, 0, 0, 0, 0, 0, 2]);
    bytes.extend_from_slice(bgp);
    bytes
}

fn record(timestamp: u32, type_code: u16, subtype: u16, body: &[u8]) -> Vec<u8> {
    let mut bytes = Vec::new();
    bytes.extend_from_slice(&timestamp.to_be_bytes());
    bytes.extend_from_slice(&type_code.to_be_bytes());
    bytes.extend_from_slice(&subtype.to_be_bytes());
    bytes.extend_from_slice(&(body.len() as u32).to_be_bytes());
    bytes.extend_from_slice(body);
    bytes
}

#[test]
fn it_works() {
    let mut scanner = MRTScanner::new(record(1, 16, 1, &message_body(&keepalive())));
    let message = scanner.scan().unwrap().unwrap();
    assert_eq!(message.mrt_type, MRTType::Bgp4mp);
    assert_eq!(scanner.scan(), Ok(None));
}

#[test]
fn a_keepalive_in_a_bgp4mp_message_record() {
    let bytes = record(1451651400, 16, 1, &message_body(&keepalive()));
    let message = MRTMessage::parse(&bytes).unwrap();
    assert_eq!(message.timestamp, 1451651400);
    assert_eq!(message.mrt_type, MRTType::Bgp4mp);
    assert_eq!(message.mrt_subtype, MRTSubType::Bgp4mpMessage);
    assert_eq!(message.subtype_code, 1);
    assert_eq!(message.buffer.len(), 35);
    match message.as_bgp4mp() {
        Ok(BGP4MPEnvelope::Message(inner)) => {
            assert_eq!(inner.peer_as_number, 65000);
            assert_eq!(inner.local_as_number, 65001);
            assert_eq!(inner.interface_index, 3);
            assert_eq!(inner.address_family, AddressFamily::IpV4);
            assert_eq!(inner.peer_ip_address, IpAddress::V4(10, 0, 0, 1));
            assert_eq!(inner.local_ip_address, IpAddress::V4(10, 0, 0, 2));
            assert_eq!(inner.bgp_message.bgp_type, BGPType::KeepAlive);
            assert_eq!(inner.bgp_message.buffer, Vec::<u8>::new());
        },
        other => panic!("{:?}", other),
    }
    let again = message.parse_bgp4mp_message().unwrap();
    assert_eq!(again.bgp_message.bgp_type, BGPType::KeepAlive);
}

#[test]
fn a_message_with_32_bit_as_numbers_and_ipv6_peers() {
    let bytes = record(7, 16, 4, &message_as4_body(&keepalive()));
    let message = MRTMessage::parse(&bytes).unwrap();
    assert_eq!(message.mrt_subtype, MRTSubType::Bgp4mpMessageAs4);
    let inner = message.parse_bgp4mp_message_as4().unwrap();
    assert_eq!(inner.peer_as_number, 65536);
    assert_eq!(inner.local_as_number, 200000);
    assert_eq!(inner.interface_index, 7);
    assert_eq!(inner.address_family, AddressFamily::IpV6);
    assert_eq!(inner.peer_ip_address, IpAddress::V6(0x2001, 0x0db8, 0, 0, 0, 0, 0, 1));
    assert_eq!(inner.local_ip_address, IpAddress::V6(0x2001, 0x0db8, 0, 0, 0, 0, 0, 2));
    assert_eq!(inner.bgp_message.bgp_type, BGPType::KeepAlive);
    assert_eq!(message.as_bgp4mp(), Ok(BGP4MPEnvelope::MessageAs4(inner)));
}

#[test]
fn the_addresses_are_of_the_family_that_the_message_names() {
    let inner = BGP4MPMessage::parse(&message_body(&keepalive())).unwrap();
    assert_eq!(inner.peer_ip_address.family(), inner.address_family);
    assert_eq!(inner.local_ip_address.family(), inner.address_family);
    let inner = BGP4MPMessageAs4::parse(&message_as4_body(&keepalive())).unwrap();
    assert_eq!(inner.peer_ip_address.family(), inner.address_family);
    assert_eq!(inner.local_ip_address.family(), inner.address_family);
}

#[test]
fn an_unknown_address_family_is_an_error() {
    let mut body = message_body(&keepalive());
    body[7] = 3;
    assert_eq!(BGP4MPMessage::parse(&body), Err(DecodeError::UnknownAddressFamily(3)));
    body[6] = 1;
    body[7] = 1;
    assert_eq!(BGP4MPMessage::parse(&body), Err(DecodeError::UnknownAddressFamily(257)));
    let mut body = message_as4_body(&keepalive());
    body[11] = 0;
    assert_eq!(BGP4MPMessageAs4::parse(&body), Err(DecodeError::UnknownAddressFamily(0)));
    assert_eq!(DecodeError::UnknownAddressFamily(3).kind(), ErrorKind::UnknownVariant);
}

#[test]
fn an_envelope_cut_short_is_truncated() {
    let body = message_body(&keepalive());
    for n in [0usize, 3, 7, 8, 15, 16, 34] {
        assert_eq!(BGP4MPMessage::parse(&body[..n]), Err(DecodeError::Truncated));
    }
    let body = message_as4_body(&keepalive());
    for n in [0usize, 7, 11, 12, 43, 44, 62] {
        assert_eq!(BGP4MPMessageAs4::parse(&body[..n]), Err(DecodeError::Truncated));
    }
}

#[test]
fn the_session_fields_are_read_where_the_as_numbers_end() {
    let body = message_body(&keepalive());
    let session = parse_peer_session(&body, 4).unwrap();
    assert_eq!(session.interface_index, 3);
    assert_eq!(session.peer_ip_address, IpAddress::V4(10, 0, 0, 1));
    assert_eq!(parse_peer_session(&body, 40), Err(DecodeError::Truncated));
    assert_eq!(parse_peer_session(&body, usize::MAX), Err(DecodeError::Truncated));
}

#[test]
fn a_faulty_marker_in_the_envelope_is_malformed() {
    let mut bgp = keepalive();
    bgp[15] = 0x7F;
    let message = MRTMessage::parse(&record(1, 16, 1, &message_body(&bgp))).unwrap();
    assert_eq!(message.as_bgp4mp(), Err(DecodeError::InvalidMarker));
    assert_eq!(message.parse_bgp4mp_message(), Err(DecodeError::InvalidMarker));
    assert_eq!(DecodeError::InvalidMarker.kind(), ErrorKind::StructuralError);
}

#[test]
fn a_faulty_marker_does_not_move_the_scanner_off_the_record() {
    let mut bgp = keepalive();
    bgp[0] = 0;
    let mut source = record(1, 16, 1, &message_body(&bgp));
    source.extend_from_slice(&record(2, 16, 1, &message_body(&keepalive())));
    let mut scanner = MRTScanner::new(source);
    let first = scanner.scan().unwrap().unwrap();
    assert_eq!(first.timestamp, 1);
    assert_eq!(first.as_bgp4mp(), Err(DecodeError::InvalidMarker));
    let second = scanner.scan().unwrap().unwrap();
    assert_eq!(second.timestamp, 2);
    assert!(second.as_bgp4mp().is_ok());
    assert_eq!(scanner.scan(), Ok(None));
}

#[test]
fn state_changes_and_local_messages_are_unsupported() {
    let bytes = vec![1, 2, 3];
    assert_eq!(
        BGP4MPStateChange::parse(&bytes),
        Err(DecodeError::Unsupported(UnsupportedKind::StateChange))
    );
    assert_eq!(
        BGP4MPStateChangeAs4::parse(&bytes),
        Err(DecodeError::Unsupported(UnsupportedKind::StateChangeAs4))
    );
    assert_eq!(
        BGP4MPMessageLocal::parse(&bytes),
        Err(DecodeError::Unsupported(UnsupportedKind::MessageLocal))
    );
    assert_eq!(
        BGP4MPMessageLocalAs4::parse(&bytes),
        Err(DecodeError::Unsupported(UnsupportedKind::MessageAs4Local))
    );
    assert_eq!(
        BGP4MPStateChange::parse(&Vec::new()),
        Err(DecodeError::Unsupported(UnsupportedKind::StateChange))
    );
    assert_eq!(
        DecodeError::Unsupported(UnsupportedKind::StateChange).kind(),
        ErrorKind::Unsupported
    );
}

#[test]
fn the_envelope_is_decoded_by_subtype() {
    let body = message_body(&keepalive());
    assert_eq!(
        BGP4MPEnvelope::parse(0, &body),
        Err(DecodeError::Unsupported(UnsupportedKind::StateChange))
    );
    assert!(matches!(BGP4MPEnvelope::parse(1, &body), Ok(BGP4MPEnvelope::Message(_))));
    assert_eq!(BGP4MPEnvelope::parse(2, &body), Err(DecodeError::UnknownSubtype(2)));
    assert_eq!(BGP4MPEnvelope::parse(3, &body), Err(DecodeError::UnknownSubtype(3)));
    assert!(matches!(
        BGP4MPEnvelope::parse(4, &message_as4_body(&keepalive())),
        Ok(BGP4MPEnvelope::MessageAs4(_))
    ));
    assert_eq!(
        BGP4MPEnvelope::parse(5, &body),
        Err(DecodeError::Unsupported(UnsupportedKind::StateChangeAs4))
    );
    assert_eq!(
        BGP4MPEnvelope::parse(6, &body),
        Err(DecodeError::Unsupported(UnsupportedKind::MessageLocal))
    );
    assert_eq!(
        BGP4MPEnvelope::parse(7, &body),
        Err(DecodeError::Unsupported(UnsupportedKind::MessageAs4Local))
    );
    assert_eq!(BGP4MPEnvelope::parse(8, &body), Err(DecodeError::UnknownSubtype(8)));
    assert_eq!(BGP4MPEnvelope::parse(65535, &body), Err(DecodeError::UnknownSubtype(65535)));
    assert_eq!(DecodeError::UnknownSubtype(8).kind(), ErrorKind::UnknownVariant);
}

#[test]
fn the_header_is_four_big_endian_fields() {
    let bytes = [0x56, 0x86, 0x7A, 0x48, 0, 16, 0, 4, 0, 0, 1, 2, 99];
    assert_eq!(
        MRTHeader::parse(&bytes),
        Ok(MRTHeader { timestamp: 0x5686_7A48, type_code: 16, subtype_code: 4, length: 258 })
    );
    assert_eq!(MRTHeader::parse(&bytes[..11]), Err(DecodeError::Truncated));
    assert_eq!(MRTHeader::parse(&[]), Err(DecodeError::Truncated));
}

#[test]
fn every_record_type_code() {
    let codes = [
        (11u16, MRTType::OspfV2),
        (12, MRTType::TableDump),
        (13, MRTType::TableDumpV2),
        (16, MRTType::Bgp4mp),
        (17, MRTType::Bgp4mpEt),
        (32, MRTType::Isis),
        (33, MRTType::IsisEt),
        (48, MRTType::OspfV3),
        (49, MRTType::OspfV3Et),
    ];
    for (code, mrt_type) in codes {
        assert_eq!(MRTType::from_code(code), Ok(mrt_type));
        let message = MRTMessage::parse(&record(5, code, 1, &[1, 2, 3])).unwrap();
        assert_eq!(message.mrt_type, mrt_type);
        assert_eq!(message.buffer, vec![1, 2, 3]);
    }
}

#[test]
fn an_unknown_record_type_is_an_error() {
    for code in [0u16, 10, 14, 15, 18, 31, 34, 47, 50, 65535] {
        assert_eq!(MRTType::from_code(code), Err(DecodeError::UnknownMrtType(code)));
        assert_eq!(
            MRTMessage::parse(&record(5, code, 0, &[])),
            Err(DecodeError::UnknownMrtType(code))
        );
    }
    assert_eq!(DecodeError::UnknownMrtType(10).kind(), ErrorKind::UnknownVariant);
}

#[test]
fn the_subtype_is_read_against_the_type() {
    assert_eq!(MRTSubType::of(MRTType::Bgp4mp, 0), MRTSubType::Bgp4mpStateChange);
    assert_eq!(MRTSubType::of(MRTType::Bgp4mp, 1), MRTSubType::Bgp4mpMessage);
    assert_eq!(MRTSubType::of(MRTType::Bgp4mp, 4), MRTSubType::Bgp4mpMessageAs4);
    assert_eq!(MRTSubType::of(MRTType::Bgp4mp, 5), MRTSubType::Bgp4mpStateChangeAs4);
    assert_eq!(MRTSubType::of(MRTType::Bgp4mp, 6), MRTSubType::Bgp4mpMessageLocal);
    assert_eq!(MRTSubType::of(MRTType::Bgp4mp, 7), MRTSubType::Bgp4mpMessageAs4Local);
    assert_eq!(MRTSubType::of(MRTType::Bgp4mp, 2), MRTSubType::Unknown);
    assert_eq!(MRTSubType::of(MRTType::Bgp4mp, 8), MRTSubType::Unknown);
    assert_eq!(MRTSubType::of(MRTType::TableDump, 1), MRTSubType::Unknown);
    assert_eq!(MRTSubType::of(MRTType::Bgp4mpEt, 1), MRTSubType::Unknown);
}

#[test]
fn a_record_keeps_its_subtype_code_as_it_stood() {
    let message = MRTMessage::parse(&record(5, 16, 9, &[])).unwrap();
    assert_eq!(message.mrt_subtype, MRTSubType::Unknown);
    assert_eq!(message.subtype_code, 9);
    assert_eq!(message.as_bgp4mp(), Err(DecodeError::UnknownSubtype(9)));
    let message = MRTMessage::parse(&record(5, 13, 2, &[1])).unwrap();
    assert_eq!(message.mrt_subtype, MRTSubType::Unknown);
    assert_eq!(message.subtype_code, 2);
}

#[test]
fn a_record_cut_short_is_truncated() {
    let bytes = record(5, 16, 1, &[1, 2, 3, 4]);
    for n in 0..bytes.len() {
        assert_eq!(MRTMessage::parse(&bytes[..n]), Err(DecodeError::Truncated));
    }
    assert!(MRTMessage::parse(&bytes).is_ok());
}

#[test]
fn truncation_comes_before_the_type_is_looked_at() {
    let bytes = record(5, 99, 1, &[1, 2, 3, 4]);
    assert_eq!(MRTMessage::parse(&bytes[..15]), Err(DecodeError::Truncated));
    assert_eq!(MRTMessage::parse(&bytes), Err(DecodeError::UnknownMrtType(99)));
}

#[test]
fn bytes_after_the_record_are_left_alone() {
    let mut bytes = record(5, 16, 1, &[1, 2, 3, 4]);
    bytes.extend_from_slice(&[9, 9, 9]);
    assert_eq!(MRTMessage::parse(&bytes).unwrap().buffer, vec![1, 2, 3, 4]);
}

#[test]
fn a_record_of_another_subtype_does_not_decode_as_a_message() {
    let message = MRTMessage::parse(&record(5, 16, 4, &message_as4_body(&keepalive()))).unwrap();
    assert_eq!(message.parse_bgp4mp_message(), Err(DecodeError::WrongSubtype));
    assert!(message.parse_bgp4mp_message_as4().is_ok());
    let message = MRTMessage::parse(&record(5, 16, 1, &message_body(&keepalive()))).unwrap();
    assert_eq!(message.parse_bgp4mp_message_as4(), Err(DecodeError::WrongSubtype));
    let message = MRTMessage::parse(&record(5, 12, 1, &message_body(&keepalive()))).unwrap();
    assert_eq!(message.parse_bgp4mp_message(), Err(DecodeError::WrongSubtype));
    assert_eq!(DecodeError::WrongSubtype.kind(), ErrorKind::WrongType);
}

#[test]
fn a_record_that_is_not_bgp4mp_is_unsupported() {
    for code in [11u16, 12, 13, 17, 32, 33, 48, 49] {
        let message = MRTMessage::parse(&record(5, code, 1, &message_body(&keepalive()))).unwrap();
        assert_eq!(
            message.as_bgp4mp(),
            Err(DecodeError::Unsupported(UnsupportedKind::NonBgp4mpRecord))
        );
    }
}

#[test]
fn state_change_records_are_unsupported() {
    let message = MRTMessage::parse(&record(5, 16, 0, &[0; 20])).unwrap();
    assert_eq!(message.mrt_subtype, MRTSubType::Bgp4mpStateChange);
    assert_eq!(
        message.as_bgp4mp(),
        Err(DecodeError::Unsupported(UnsupportedKind::StateChange))
    );
    let message = MRTMessage::parse(&record(5, 16, 5, &[0; 20])).unwrap();
    assert_eq!(
        message.as_bgp4mp(),
        Err(DecodeError::Unsupported(UnsupportedKind::StateChangeAs4))
    );
}

#[test]
fn the_scanner_yields_records_in_order() {
    let mut source = record(1, 16, 1, &message_body(&keepalive()));
    source.extend_from_slice(&record(2, 13, 2, &[1, 2, 3]));
    source.extend_from_slice(&record(3, 16, 4, &[]));
    let mut scanner = MRTScanner::new(source);
    assert_eq!(scanner.scan().unwrap().unwrap().timestamp, 1);
    let second = scanner.scan().unwrap().unwrap();
    assert_eq!(second.timestamp, 2);
    assert_eq!(second.mrt_type, MRTType::TableDumpV2);
    assert_eq!(second.buffer, vec![1, 2, 3]);
    let third = scanner.scan().unwrap().unwrap();
    assert_eq!(third.timestamp, 3);
    assert_eq!(third.buffer, Vec::<u8>::new());
    assert_eq!(scanner.scan(), Ok(None));
    assert_eq!(scanner.scan(), Ok(None));
}

#[test]
fn the_scanner_of_nothing_is_at_its_end() {
    let mut scanner = MRTScanner::new(Vec::new());
    assert_eq!(scanner.scan(), Ok(None));
}

#[test]
fn the_scanner_goes_on_after_a_record_of_unknown_type() {
    let mut source = record(1, 99, 0, &[1, 2, 3, 4, 5]);
    source.extend_from_slice(&record(2, 16, 1, &message_body(&keepalive())));
    let mut scanner = MRTScanner::new(source);
    assert_eq!(scanner.scan(), Err(DecodeError::UnknownMrtType(99)));
    let next = scanner.scan().unwrap().unwrap();
    assert_eq!(next.timestamp, 2);
    assert_eq!(scanner.scan(), Ok(None));
}

#[test]
fn a_source_that_ends_inside_a_record_is_truncated() {
    let mut source = record(1, 16, 1, &message_body(&keepalive()));
    source.extend_from_slice(&record(2, 16, 1, &[1, 2, 3, 4])[..14]);
    let mut scanner = MRTScanner::new(source);
    assert_eq!(scanner.scan().unwrap().unwrap().timestamp, 1);
    assert_eq!(scanner.scan(), Err(DecodeError::Truncated));
    assert_eq!(scanner.scan(), Ok(None));
    let mut scanner = MRTScanner::new(vec![0, 0, 0]);
    assert_eq!(scanner.scan(), Err(DecodeError::Truncated));
    assert_eq!(scanner.scan(), Ok(None));
}
