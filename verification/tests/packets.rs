use ekko::checksum::{checksum_v4, checksum_v6};
use ekko::{
    EkkoError, EkkoPacket, IpAddress, Redirect, Unreachable, UnreachableCodeV4, UnreachableCodeV6,
};

const READ_REASON: &str = "failed to fill whole buffer";
const WRITE_REASON: &str = "failed to write whole buffer";

fn v4(last: u8) -> IpAddress {
    IpAddress::V4([192, 0, 2, last])
}

fn v6(last: u16) -> IpAddress {
    IpAddress::V6([0x2001, 0x0db8, 0, 0, 0, 0, 0, last])
}

fn echo_request_v4(identifier: u16, sequence: u16) -> Vec<u8> {
    let mut buf = [0u8; 16];
    EkkoPacket::with_payload(&mut buf, (identifier, sequence), (v4(1), v4(2)), &[1, 2, 3, 4])
        .unwrap();
    buf.to_vec()
}

fn error_v4(kind: u8, code: u8, header_words: u8, inner: &[u8]) -> Vec<u8> {
    let mut bytes = vec![kind, code, 0, 0, 0, 0, 0, 0];
    bytes.push(0x40 | header_words);
    bytes.extend(std::iter::repeat(0u8).take(header_words as usize * 4 - 1));
    bytes.extend_from_slice(inner);
    bytes
}

fn error_v6(kind: u8, code: u8, inner: &[u8]) -> Vec<u8> {
    let mut bytes = vec![kind, code, 0, 0, 0, 0, 0, 0];
    bytes.extend(std::iter::repeat(0x60u8).take(40));
    bytes.extend_from_slice(inner);
    bytes
}

#[test]
fn request_v4_round_trip() {
    let mut buf = [0u8; 128];
    let packet = EkkoPacket::new(&mut buf, (0xBEEF, 0x1234), (v4(1), v4(2))).unwrap();
    assert!(matches!(packet, EkkoPacket::V4(_)));
    assert_eq!(packet.get_type().unwrap(), 8);
    assert_eq!(packet.get_code().unwrap(), 0);
    assert_eq!(packet.get_identifier().unwrap(), 0xBEEF);
    assert_eq!(packet.get_sequence().unwrap(), 0x1234);
    assert_eq!(packet.as_slice().len(), 128);
}

#[test]
fn request_v6_round_trip() {
    let mut buf = [0u8; 128];
    let packet = EkkoPacket::new(&mut buf, (0x0102, 0xFFFF), (v6(1), v6(2))).unwrap();
    assert!(matches!(packet, EkkoPacket::V6(_)));
    assert_eq!(packet.get_type().unwrap(), 128);
    assert_eq!(packet.get_code().unwrap(), 0);
    assert_eq!(packet.get_identifier().unwrap(), 0x0102);
    assert_eq!(packet.get_sequence().unwrap(), 0xFFFF);
}

#[test]
fn request_v4_has_a_checksum_that_verifies() {
    let mut buf = [0u8; 128];
    let packet = EkkoPacket::new(&mut buf, (7, 9), (v4(1), v4(2))).unwrap();
    assert_eq!(checksum_v4(packet.as_slice()), 0);
}

#[test]
fn request_v6_has_a_checksum_that_verifies() {
    let mut buf = [0u8; 128];
    let src = [0x2001, 0x0db8, 0, 0, 0, 0, 0, 1];
    let dst = [0x2001, 0x0db8, 0, 0, 0, 0, 0, 2];
    let packet =
        EkkoPacket::new(&mut buf, (7, 9), (IpAddress::V6(src), IpAddress::V6(dst))).unwrap();
    assert_eq!(checksum_v6(packet.as_slice(), (src, dst), 128), 0);
}

#[test]
fn request_v6_checksum_takes_the_length_of_the_buffer() {
    let src = [0x2001, 0x0db8, 0, 0, 0, 0, 0, 1];
    let dst = [0x2001, 0x0db8, 0, 0, 0, 0, 0, 2];
    for room in [24usize, 25, 64, 128, 1500] {
        let mut buf = vec![0u8; room];
        let packet =
            EkkoPacket::new(&mut buf, (7, 9), (IpAddress::V6(src), IpAddress::V6(dst))).unwrap();
        assert_eq!(checksum_v6(packet.as_slice(), (src, dst), room as u32), 0);
        let stored = packet.get_checksum().unwrap();
        let mut zeroed = packet.as_slice().to_vec();
        zeroed[2] = 0;
        zeroed[3] = 0;
        assert_eq!(stored, checksum_v6(&zeroed, (src, dst), room as u32));
    }
}

#[test]
fn request_v4_stores_the_checksum_of_the_zeroed_message() {
    for room in [44usize, 45, 128] {
        let mut buf = vec![0x33u8; room];
        let packet = EkkoPacket::new(&mut buf, (0xFFFF, 0), (v4(1), v4(2))).unwrap();
        assert_eq!(checksum_v4(packet.as_slice()), 0);
        let stored = packet.get_checksum().unwrap();
        let mut zeroed = packet.as_slice().to_vec();
        zeroed[2] = 0;
        zeroed[3] = 0;
        assert_eq!(stored, checksum_v4(&zeroed));
    }
}

#[test]
fn request_leaves_the_buffer_behind_the_filler_alone() {
    let mut buf = [0xA5u8; 64];
    EkkoPacket::new(&mut buf, (1, 2), (v4(1), v4(2))).unwrap();
    assert!(buf[44..].iter().all(|byte| *byte == 0xA5));
    let mut buf = [0x5Au8; 64];
    EkkoPacket::new(&mut buf, (1, 2), (v6(1), v6(2))).unwrap();
    assert!(buf[24..].iter().all(|byte| *byte == 0x5A));
}

#[test]
fn request_with_payload_is_exact_for_ipv4() {
    let mut buf = [0xEEu8; 14];
    let packet =
        EkkoPacket::with_payload(&mut buf, (0x1234, 0x0001), (v4(1), v4(2)), &[0xAA, 0xBB, 0xCC])
            .unwrap();
    // 0x0800 + 0x1234 + 0x0001 + 0xAABB + 0xCCEE + 0xEEEE = 0x2_80CC, folded 0x80CE
    let expected = [8, 0, 0x7F, 0x31, 0x12, 0x34, 0x00, 0x01, 0xAA, 0xBB, 0xCC, 0xEE, 0xEE, 0xEE];
    assert_eq!(packet.as_slice(), &expected);
    assert_eq!(packet.get_checksum().unwrap(), 0x7F31);
    assert_eq!(buf, expected);
}

#[test]
fn request_with_payload_is_exact_for_ipv6() {
    let mut buf = [0u8; 10];
    let src = [1u16, 0, 0, 0, 0, 0, 0, 0];
    let dst = [2u16, 0, 0, 0, 0, 0, 0, 0];
    let packet = EkkoPacket::with_payload(
        &mut buf,
        (0x0A0B, 0x0C0D),
        (IpAddress::V6(src), IpAddress::V6(dst)),
        &[0x01, 0x02],
    )
    .unwrap();
    // 0x8000 + 0x0A0B + 0x0C0D + 0x0102 + 1 + 2 + 10 + 58 = 0x9761
    let expected = [128, 0, 0x68, 0x9E, 0x0A, 0x0B, 0x0C, 0x0D, 0x01, 0x02];
    assert_eq!(packet.as_slice(), &expected);
}

#[test]
fn request_between_two_families_is_refused() {
    let mut buf = [0x11u8; 128];
    let error = EkkoPacket::new(&mut buf, (1, 2), (v4(1), v6(2))).err().unwrap();
    assert_eq!(error, EkkoError::RequestIpMismatch { src: v4(1), dst: v6(2) });
    let error = EkkoPacket::new(&mut buf, (1, 2), (v6(1), v4(2))).err().unwrap();
    assert_eq!(error, EkkoError::RequestIpMismatch { src: v6(1), dst: v4(2) });
    let error =
        EkkoPacket::with_payload(&mut buf, (1, 2), (v6(1), v4(2)), &[]).err().unwrap();
    assert_eq!(error, EkkoError::RequestIpMismatch { src: v6(1), dst: v4(2) });
    assert_eq!(buf, [0x11u8; 128]);
}

#[test]
fn request_v4_in_a_short_buffer_names_the_first_field_without_room() {
    let cases: [(usize, &str); 5] = [
        (0, "type"),
        (1, "code"),
        (3, "checksum placeholder"),
        (5, "identifier"),
        (7, "sequence"),
    ];
    for (room, field) in cases {
        let mut buf = vec![0u8; room];
        let error = EkkoPacket::new(&mut buf, (1, 2), (v4(1), v4(2))).err().unwrap();
        assert_eq!(error, EkkoError::RequestWriteIcmpv4Field(field, WRITE_REASON.to_string()));
    }
    let mut buf = vec![0u8; 43];
    let error = EkkoPacket::new(&mut buf, (1, 2), (v4(1), v4(2))).err().unwrap();
    assert_eq!(error, EkkoError::RequestWriteIcmpv4Payload(WRITE_REASON.to_string()));
    let mut buf = vec![0u8; 44];
    assert!(EkkoPacket::new(&mut buf, (1, 2), (v4(1), v4(2))).is_ok());
}

#[test]
fn request_v6_in_a_short_buffer_names_the_first_field_without_room() {
    let cases: [(usize, &str); 5] = [
        (0, "type"),
        (1, "code"),
        (2, "checksum placeholder"),
        (4, "identifier"),
        (6, "sequence"),
    ];
    for (room, field) in cases {
        let mut buf = vec![0u8; room];
        let error = EkkoPacket::new(&mut buf, (1, 2), (v6(1), v6(2))).err().unwrap();
        assert_eq!(error, EkkoError::RequestWriteIcmpv6Field(field, WRITE_REASON.to_string()));
    }
    let mut buf = vec![0u8; 23];
    let error = EkkoPacket::new(&mut buf, (1, 2), (v6(1), v6(2))).err().unwrap();
    assert_eq!(error, EkkoError::RequestWriteIcmpv6Payload(WRITE_REASON.to_string()));
    let mut buf = vec![0u8; 24];
    assert!(EkkoPacket::new(&mut buf, (1, 2), (v6(1), v6(2))).is_ok());
}

#[test]
fn request_in_a_short_buffer_writes_what_fits() {
    let mut buf = [0xEEu8; 9];
    let error = EkkoPacket::with_payload(&mut buf, (0x0102, 0x0304), (v4(1), v4(2)), &[7, 7])
        .err()
        .unwrap();
    assert_eq!(error, EkkoError::RequestWriteIcmpv4Payload(WRITE_REASON.to_string()));
    assert_eq!(buf, [8, 0, 0, 0, 1, 2, 3, 4, 7]);
    let mut buf = [0xEEu8; 5];
    assert!(EkkoPacket::with_payload(&mut buf, (0x0102, 0x0304), (v4(1), v4(2)), &[]).is_err());
    assert_eq!(buf, [8, 0, 0, 0, 1]);
}

#[test]
fn fields_are_read_at_their_offsets() {
    let bytes = [0u8, 7, 0xAB, 0xCD, 0x12, 0x34, 0x56, 0x78];
    let packet = EkkoPacket::V4(&bytes);
    assert_eq!(packet.get_type().unwrap(), 0);
    assert_eq!(packet.get_code().unwrap(), 7);
    assert_eq!(packet.get_checksum().unwrap(), 0xABCD);
    assert_eq!(packet.get_identifier().unwrap(), 0x1234);
    assert_eq!(packet.get_sequence().unwrap(), 0x5678);
    assert_eq!(packet.as_slice(), &bytes);
}

#[test]
fn echo_types_of_both_families_are_read_directly() {
    for kind in [0u8, 8] {
        let bytes = [kind, 0, 0, 0, 0, 1, 0, 2];
        assert_eq!(EkkoPacket::V4(&bytes).get_identifier().unwrap(), 1);
        assert_eq!(EkkoPacket::V4(&bytes).get_sequence().unwrap(), 2);
    }
    for kind in [128u8, 129] {
        let bytes = [kind, 0, 0, 0, 0, 3, 0, 4];
        assert_eq!(EkkoPacket::V6(&bytes).get_identifier().unwrap(), 3);
        assert_eq!(EkkoPacket::V6(&bytes).get_sequence().unwrap(), 4);
    }
}

#[test]
fn reads_past_the_end_name_the_field() {
    let read = |field: &'static str| EkkoError::ResponseReadField(field, READ_REASON.to_string());
    assert_eq!(EkkoPacket::V4(&[]).get_type().err().unwrap(), read("type"));
    assert_eq!(EkkoPacket::V6(&[]).get_type().err().unwrap(), read("type"));
    assert_eq!(EkkoPacket::V4(&[0]).get_code().err().unwrap(), read("code"));
    assert_eq!(EkkoPacket::V4(&[0, 0, 0]).get_checksum().err().unwrap(), read("checksum"));
    assert_eq!(EkkoPacket::V4(&[]).get_identifier().err().unwrap(), read("type"));
    assert_eq!(
        EkkoPacket::V4(&[0, 0, 0, 0, 1]).get_identifier().err().unwrap(),
        read("identifier")
    );
    assert_eq!(
        EkkoPacket::V4(&[0, 0, 0, 0, 1, 2, 3]).get_sequence().err().unwrap(),
        read("sequence number")
    );
    assert_eq!(
        EkkoPacket::V4(&[11, 0, 0, 0, 0, 0, 0, 0]).get_originator().err().unwrap(),
        read("internet protocol header size")
    );
    assert_eq!(
        EkkoPacket::V4(&[11, 0, 0, 0, 0, 0, 0, 0, 0x45, 0]).get_originator().err().unwrap(),
        read("originator")
    );
    assert_eq!(
        EkkoPacket::V6(&[3, 0, 0, 0, 0, 0, 0, 0]).get_originator().err().unwrap(),
        read("originator")
    );
    assert_eq!(
        EkkoPacket::V4(&[5, 0, 0, 0, 1, 2, 3]).get_redirect().err().unwrap(),
        read("address octet: 0")
    );
    assert_eq!(
        EkkoPacket::V4(&[3, 0, 0, 0, 0, 0, 1]).get_unreachable().err().unwrap(),
        read("problem pointer")
    );
    assert_eq!(EkkoPacket::V6(&[1]).get_unreachable().err().unwrap(), read("code"));
}

#[test]
fn originator_v4_round_trip() {
    let request = echo_request_v4(0xCAFE, 0x0042);
    let message = error_v4(11, 0, 5, &request);
    let packet = EkkoPacket::V4(&message);
    let originator = packet.get_originator().unwrap();
    assert!(matches!(originator, EkkoPacket::V4(_)));
    assert_eq!(originator.as_slice(), &request[..]);
    assert_eq!(originator.get_identifier().unwrap(), 0xCAFE);
    assert_eq!(originator.get_sequence().unwrap(), 0x0042);
    assert_eq!(packet.get_identifier().unwrap(), 0xCAFE);
    assert_eq!(packet.get_sequence().unwrap(), 0x0042);
}

#[test]
fn originator_v4_follows_the_declared_header_length() {
    let request = echo_request_v4(0x0A0B, 0x0C0D);
    let message = error_v4(3, 1, 15, &request);
    let packet = EkkoPacket::V4(&message);
    assert_eq!(packet.get_originator().unwrap().as_slice(), &request[..]);
    assert_eq!(packet.get_identifier().unwrap(), 0x0A0B);
    assert_eq!(packet.get_sequence().unwrap(), 0x0C0D);
}

#[test]
fn originator_v4_may_be_empty() {
    let message = error_v4(11, 0, 5, &[]);
    let packet = EkkoPacket::V4(&message);
    assert_eq!(packet.get_originator().unwrap().as_slice().len(), 0);
    assert_eq!(
        packet.get_identifier().err().unwrap(),
        EkkoError::ResponseReadField("type", READ_REASON.to_string())
    );
}

#[test]
fn originator_v6_starts_at_offset_48() {
    let request = [128u8, 0, 0, 0, 0x11, 0x22, 0x33, 0x44];
    for kind in [1u8, 2, 3, 4] {
        let message = error_v6(kind, 0, &request);
        let packet = EkkoPacket::V6(&message);
        let originator = packet.get_originator().unwrap();
        assert!(matches!(originator, EkkoPacket::V6(_)));
        assert_eq!(originator.as_slice(), &request);
        assert_eq!(packet.get_identifier().unwrap(), 0x1122);
        assert_eq!(packet.get_sequence().unwrap(), 0x3344);
    }
}

#[test]
fn originator_is_embedded_by_error_types_only() {
    let request = echo_request_v4(1, 2);
    for kind in [3u8, 4, 5, 11, 12] {
        let message = error_v4(kind, 0, 5, &request);
        assert!(EkkoPacket::V4(&message).get_originator().is_ok());
    }
    for kind in [0u8, 1, 2, 6, 8, 10, 13, 128, 129, 255] {
        let message = error_v4(kind, 0, 5, &request);
        let error = EkkoPacket::V4(&message).get_originator().err().unwrap();
        assert_eq!(
            error,
            EkkoError::RequestReadField(
                "originator",
                format!("missing originator for type: {}", kind)
            )
        );
    }
    for kind in [0u8, 5, 11, 12, 128, 129, 200] {
        let message = error_v6(kind, 0, &request);
        let error = EkkoPacket::V6(&message).get_originator().err().unwrap();
        assert_eq!(
            error,
            EkkoError::RequestReadField(
                "originator",
                format!("missing originator for type: {}", kind)
            )
        );
    }
}

#[test]
fn identifier_of_a_type_without_originator_is_an_error() {
    let bytes = [13u8, 0, 0, 0, 0, 1, 0, 2];
    assert_eq!(
        EkkoPacket::V4(&bytes).get_identifier().err().unwrap(),
        EkkoError::RequestReadField("originator", "missing originator for type: 13".to_string())
    );
    assert_eq!(
        EkkoPacket::V4(&bytes).get_sequence().err().unwrap(),
        EkkoError::RequestReadField("originator", "missing originator for type: 13".to_string())
    );
}

#[test]
fn identifier_is_resolved_through_nested_errors() {
    let request = echo_request_v4(0x7777, 0x0003);
    let inner = error_v4(3, 3, 5, &request);
    let outer = error_v4(11, 0, 6, &inner);
    let packet = EkkoPacket::V4(&outer);
    assert_eq!(packet.get_identifier().unwrap(), 0x7777);
    assert_eq!(packet.get_sequence().unwrap(), 0x0003);
}

#[test]
fn identifier_is_resolved_through_many_levels() {
    let mut message = echo_request_v4(0x4321, 0x0009);
    for _ in 0..2000 {
        message = error_v4(11, 0, 1, &message);
    }
    let packet = EkkoPacket::V4(&message);
    assert_eq!(packet.get_identifier().unwrap(), 0x4321);
    assert_eq!(packet.get_sequence().unwrap(), 0x0009);
}

#[test]
fn unreachable_v4_scenario() {
    let request = echo_request_v4(1, 2);
    let message = error_v4(3, 1, 5, &request);
    assert_eq!(
        EkkoPacket::V4(&message).get_unreachable().unwrap(),
        Unreachable::V4(UnreachableCodeV4::DestinationHostUnreachable)
    );
    let mut message = error_v4(3, 4, 5, &request);
    message[6] = 0x05;
    message[7] = 0xDC;
    assert_eq!(
        EkkoPacket::V4(&message).get_unreachable().unwrap(),
        Unreachable::V4(UnreachableCodeV4::FragmentationRequired(1500))
    );
}

#[test]
fn unreachable_v4_codes() {
    let expected = [
        UnreachableCodeV4::DestinationNetworkUnreachable,
        UnreachableCodeV4::DestinationHostUnreachable,
        UnreachableCodeV4::DestinationProtocolUnreachable,
        UnreachableCodeV4::DestinationPortUnreachable,
        UnreachableCodeV4::FragmentationRequired(0x0102),
        UnreachableCodeV4::SourceRouteFailed,
        UnreachableCodeV4::DestinationNetworkUnknown,
        UnreachableCodeV4::DestinationHostUnknown,
        UnreachableCodeV4::SourceHostIsolated,
        UnreachableCodeV4::NetworkAdministrativelyProhibited,
        UnreachableCodeV4::HostAdministrativelyProhibited,
        UnreachableCodeV4::NetworkUnreachable,
        UnreachableCodeV4::HostUnreachable,
        UnreachableCodeV4::CommunicationAdministrativelyProhibited,
        UnreachableCodeV4::HostPrecedenceViolation,
        UnreachableCodeV4::PrecedenceCutoff,
    ];
    for (code, reason) in expected.iter().enumerate() {
        let bytes = [3u8, code as u8, 0, 0, 0, 0, 0x01, 0x02];
        assert_eq!(
            EkkoPacket::V4(&bytes).get_unreachable().unwrap(),
            Unreachable::V4(*reason)
        );
    }
    for code in [16u8, 17, 100, 255] {
        let bytes = [3u8, code, 0, 0, 0, 0, 0x01, 0x02];
        assert_eq!(
            EkkoPacket::V4(&bytes).get_unreachable().unwrap(),
            Unreachable::V4(UnreachableCodeV4::Unexpected(code))
        );
    }
}

#[test]
fn unreachable_v6_codes() {
    let expected = [
        UnreachableCodeV6::NoRouteToDestination,
        UnreachableCodeV6::CommunicationWithDestinationAdministrativelyProhibited,
        UnreachableCodeV6::BeyondScopeOfSourceAddress,
        UnreachableCodeV6::AddressUnreachable,
        UnreachableCodeV6::PortUnreachable,
        UnreachableCodeV6::SourceAddressFailedIngressEgressPolicy,
        UnreachableCodeV6::RejectRouteToDestination,
        UnreachableCodeV6::ErrorInSourceRoutingHeader,
    ];
    for (code, reason) in expected.iter().enumerate() {
        let bytes = [1u8, code as u8];
        assert_eq!(
            EkkoPacket::V6(&bytes).get_unreachable().unwrap(),
            Unreachable::V6(*reason)
        );
    }
    for code in [8u8, 9, 255] {
        let bytes = [1u8, code];
        assert_eq!(
            EkkoPacket::V6(&bytes).get_unreachable().unwrap(),
            Unreachable::V6(UnreachableCodeV6::Unexpected(code))
        );
    }
}

#[test]
fn unreachable_of_another_type_is_refused() {
    let reason = "not an unreachable response".to_string();
    assert_eq!(
        EkkoPacket::V4(&[11, 0, 0, 0, 0, 0, 0, 0]).get_unreachable().err().unwrap(),
        EkkoError::RequestReadIcmpv4Type("unreachable", reason.clone())
    );
    assert_eq!(
        EkkoPacket::V6(&[3, 0, 0, 0, 0, 0, 0, 0]).get_unreachable().err().unwrap(),
        EkkoError::RequestReadIcmpv6Type("unreachable", reason)
    );
}

#[test]
fn redirect_scenario() {
    let bytes = [5u8, 2, 0, 0, 10, 0, 0, 254];
    assert_eq!(
        EkkoPacket::V4(&bytes).get_redirect().unwrap(),
        Redirect::RedirectDatagramsForTypeServiceNetwork([10, 0, 0, 254])
    );
}

#[test]
fn redirect_codes() {
    let gateway = [172u8, 16, 1, 1];
    let expected = [
        Redirect::RedirectDatagramsForNetwork(gateway),
        Redirect::RedirectDatagramsForHost(gateway),
        Redirect::RedirectDatagramsForTypeServiceNetwork(gateway),
        Redirect::RedirectDatagramsForTypeServiceHost(gateway),
    ];
    for (code, redirect) in expected.iter().enumerate() {
        let bytes = [5u8, code as u8, 0, 0, 172, 16, 1, 1];
        assert_eq!(EkkoPacket::V4(&bytes).get_redirect().unwrap(), *redirect);
    }
    for code in [4u8, 5, 255] {
        let bytes = [5u8, code, 0, 0, 172, 16, 1, 1];
        assert_eq!(EkkoPacket::V4(&bytes).get_redirect().unwrap(), Redirect::Unexpected(code));
    }
}

#[test]
fn redirect_of_another_type_or_family_is_refused() {
    assert_eq!(
        EkkoPacket::V4(&[3, 0, 0, 0, 10, 0, 0, 1]).get_redirect().err().unwrap(),
        EkkoError::RequestReadIcmpv4Type("redirect", "not redirect response".to_string())
    );
    assert_eq!(
        EkkoPacket::V6(&[5, 0, 0, 0, 10, 0, 0, 1]).get_redirect().err().unwrap(),
        EkkoError::RequestReadIcmpv6Type("redirect", "not a redirect response".to_string())
    );
    assert_eq!(
        EkkoPacket::V6(&[]).get_redirect().err().unwrap(),
        EkkoError::ResponseReadField("type", READ_REASON.to_string())
    );
}

#[test]
fn datagram_v4_starts_with_its_ip_header() {
    let mut datagram = vec![0x45u8];
    datagram.extend(std::iter::repeat(0u8).take(19));
    datagram.extend_from_slice(&[0, 0, 0, 0, 0, 1, 0, 2]);
    let packet = EkkoPacket::from_datagram(ekko::Family::V4, &datagram).unwrap();
    assert!(matches!(packet, EkkoPacket::V4(_)));
    assert_eq!(packet.as_slice(), &[0, 0, 0, 0, 0, 1, 0, 2]);
    let mut datagram = vec![0x46u8];
    datagram.extend(std::iter::repeat(0u8).take(23));
    datagram.extend_from_slice(&[9, 9]);
    let packet = EkkoPacket::from_datagram(ekko::Family::V4, &datagram).unwrap();
    assert_eq!(packet.as_slice(), &[9, 9]);
}

#[test]
fn datagram_v4_shorter_than_its_header_is_an_error() {
    assert_eq!(
        EkkoPacket::from_datagram(ekko::Family::V4, &[]).err().unwrap(),
        EkkoError::ResponseReadField("internet protocol header size", READ_REASON.to_string())
    );
    assert_eq!(
        EkkoPacket::from_datagram(ekko::Family::V4, &[0x45, 0, 0]).err().unwrap(),
        EkkoError::ResponseReadField("internet protocol header", READ_REASON.to_string())
    );
}

#[test]
fn datagram_v6_is_the_message() {
    let datagram = [129u8, 0, 0, 0, 0, 1, 0, 2];
    let packet = EkkoPacket::from_datagram(ekko::Family::V6, &datagram).unwrap();
    assert!(matches!(packet, EkkoPacket::V6(_)));
    assert_eq!(packet.as_slice(), &datagram);
    let packet = EkkoPacket::from_datagram(ekko::Family::V6, &[]).unwrap();
    assert_eq!(packet.as_slice().len(), 0);
}

#[test]
fn header_length_counts_words_of_the_low_nibble() {
    assert_eq!(ekko::packets::header_length(0x45), 20);
    assert_eq!(ekko::packets::header_length(0x4F), 60);
    assert_eq!(ekko::packets::header_length(0xF0), 0);
    assert_eq!(ekko::packets::header_length(0x06), 24);
}
