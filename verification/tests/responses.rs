use ekko::{
    EkkoData, EkkoError, EkkoPacket, EkkoResponse, Family, Fault, IpAddress, ReadField, Redirect,
    Unreachable, UnreachableCodeV4, UnreachableCodeV6, WriteField,
};
use std::cmp::Ordering;

const RESPONDER_V4: IpAddress = IpAddress::V4([198, 51, 100, 7]);
const RESPONDER_V6: IpAddress = IpAddress::V6([0x2001, 0x0db8, 0, 0, 0, 0, 0, 7]);

fn expect_data(data: &EkkoData, address: IpAddress, hops: u32) {
    assert_eq!(data.timepoint, 1_000);
    assert_eq!(data.elapsed, 250);
    assert_eq!(data.address, Some(address));
    assert_eq!(data.identifier, 0x1234);
    assert_eq!(data.sequence, 0x0005);
    assert_eq!(data.hops, hops);
}

fn message_v4(kind: u8, code: u8) -> Vec<u8> {
    if kind == 0 || kind == 8 {
        return vec![kind, code, 0, 0, 0x12, 0x34, 0x00, 0x05];
    }
    let mut bytes = vec![kind, code, 0, 0, 10, 1, 2, 3, 0x45];
    bytes.extend(std::iter::repeat(0u8).take(19));
    bytes.extend_from_slice(&[8, 0, 0, 0, 0x12, 0x34, 0x00, 0x05]);
    bytes
}

fn message_v6(kind: u8, code: u8) -> Vec<u8> {
    if kind == 128 || kind == 129 {
        return vec![kind, code, 0, 0, 0x12, 0x34, 0x00, 0x05];
    }
    let mut bytes = vec![kind, code, 0, 0, 0, 0, 0, 0];
    bytes.extend(std::iter::repeat(0x60u8).take(40));
    bytes.extend_from_slice(&[128, 0, 0, 0, 0x12, 0x34, 0x00, 0x05]);
    bytes
}

fn classify_v4(kind: u8, code: u8, hops: u32) -> Result<EkkoResponse, EkkoError> {
    let bytes = message_v4(kind, code);
    EkkoResponse::new((RESPONDER_V4, hops), (1_000, 250), EkkoPacket::V4(&bytes))
}

fn classify_v6(kind: u8, code: u8, hops: u32) -> Result<EkkoResponse, EkkoError> {
    let bytes = message_v6(kind, code);
    EkkoResponse::new((RESPONDER_V6, hops), (1_000, 250), EkkoPacket::V6(&bytes))
}

#[test]
fn classify_v4_destination() {
    match classify_v4(0, 0, 9).unwrap() {
        EkkoResponse::Destination(data) => expect_data(&data, RESPONDER_V4, 9),
        other => panic!("{:?}", other),
    }
}

#[test]
fn classify_v4_unreachable() {
    match classify_v4(3, 1, 4).unwrap() {
        EkkoResponse::Unreachable((data, detail)) => {
            expect_data(&data, RESPONDER_V4, 4);
            assert_eq!(detail, Unreachable::V4(UnreachableCodeV4::DestinationHostUnreachable));
        },
        other => panic!("{:?}", other),
    }
}

#[test]
fn classify_v4_unreachable_carries_the_next_hop_mtu() {
    let mut bytes = message_v4(3, 4);
    bytes[6] = 0x02;
    bytes[7] = 0x40;
    let outcome =
        EkkoResponse::new((RESPONDER_V4, 2), (1_000, 250), EkkoPacket::V4(&bytes)).unwrap();
    match outcome {
        EkkoResponse::Unreachable((data, detail)) => {
            expect_data(&data, RESPONDER_V4, 2);
            assert_eq!(detail, Unreachable::V4(UnreachableCodeV4::FragmentationRequired(576)));
        },
        other => panic!("{:?}", other),
    }
}

#[test]
fn classify_v4_source_quench() {
    match classify_v4(4, 0, 1).unwrap() {
        EkkoResponse::SourceQuench(data) => expect_data(&data, RESPONDER_V4, 1),
        other => panic!("{:?}", other),
    }
}

#[test]
fn classify_v4_redirect() {
    match classify_v4(5, 2, 3).unwrap() {
        EkkoResponse::Redirect((data, detail)) => {
            expect_data(&data, RESPONDER_V4, 3);
            assert_eq!(detail, Redirect::RedirectDatagramsForTypeServiceNetwork([10, 1, 2, 3]));
        },
        other => panic!("{:?}", other),
    }
}

#[test]
fn classify_v4_exceeded() {
    match classify_v4(11, 0, 6).unwrap() {
        EkkoResponse::Exceeded(data) => expect_data(&data, RESPONDER_V4, 6),
        other => panic!("{:?}", other),
    }
}

#[test]
fn classify_v4_parameter_problem() {
    match classify_v4(12, 1, 6).unwrap() {
        EkkoResponse::ParameterProblem((data, code)) => {
            expect_data(&data, RESPONDER_V4, 6);
            assert_eq!(code, 1);
        },
        other => panic!("{:?}", other),
    }
}

#[test]
fn classify_v4_unexpected_for_every_code() {
    for code in [0u8, 1, 77, 255] {
        match classify_v4(8, code, 6).unwrap() {
            EkkoResponse::Unexpected((data, (kind, found))) => {
                expect_data(&data, RESPONDER_V4, 6);
                assert_eq!(kind, 8);
                assert_eq!(found, code);
            },
            other => panic!("{:?}", other),
        }
    }
}

#[test]
fn classify_v4_known_types_for_every_code() {
    for code in [0u8, 1, 77, 255] {
        assert!(matches!(classify_v4(0, code, 1).unwrap(), EkkoResponse::Destination(_)));
        assert!(matches!(classify_v4(3, code, 1).unwrap(), EkkoResponse::Unreachable(_)));
        assert!(matches!(classify_v4(4, code, 1).unwrap(), EkkoResponse::SourceQuench(_)));
        assert!(matches!(classify_v4(5, code, 1).unwrap(), EkkoResponse::Redirect(_)));
        assert!(matches!(classify_v4(11, code, 1).unwrap(), EkkoResponse::Exceeded(_)));
        assert!(matches!(classify_v4(12, code, 1).unwrap(), EkkoResponse::ParameterProblem(_)));
    }
}

#[test]
fn classify_v6_destination() {
    match classify_v6(129, 0, 9).unwrap() {
        EkkoResponse::Destination(data) => expect_data(&data, RESPONDER_V6, 9),
        other => panic!("{:?}", other),
    }
}

#[test]
fn classify_v6_unreachable() {
    match classify_v6(1, 4, 5).unwrap() {
        EkkoResponse::Unreachable((data, detail)) => {
            expect_data(&data, RESPONDER_V6, 5);
            assert_eq!(detail, Unreachable::V6(UnreachableCodeV6::PortUnreachable));
        },
        other => panic!("{:?}", other),
    }
}

#[test]
fn classify_v6_packet_too_big() {
    match classify_v6(2, 0, 5).unwrap() {
        EkkoResponse::PacketTooBig(data) => expect_data(&data, RESPONDER_V6, 5),
        other => panic!("{:?}", other),
    }
}

#[test]
fn classify_v6_exceeded() {
    match classify_v6(3, 0, 5).unwrap() {
        EkkoResponse::Exceeded(data) => expect_data(&data, RESPONDER_V6, 5),
        other => panic!("{:?}", other),
    }
}

#[test]
fn classify_v6_parameter_problem() {
    match classify_v6(4, 2, 5).unwrap() {
        EkkoResponse::ParameterProblem((data, code)) => {
            expect_data(&data, RESPONDER_V6, 5);
            assert_eq!(code, 2);
        },
        other => panic!("{:?}", other),
    }
}

#[test]
fn classify_v6_unexpected_for_every_code() {
    for code in [0u8, 3, 255] {
        match classify_v6(128, code, 5).unwrap() {
            EkkoResponse::Unexpected((data, (kind, found))) => {
                expect_data(&data, RESPONDER_V6, 5);
                assert_eq!(kind, 128);
                assert_eq!(found, code);
            },
            other => panic!("{:?}", other),
        }
    }
}

#[test]
fn classify_of_a_type_without_identifier_is_an_error() {
    assert_eq!(
        classify_v4(13, 0, 1).err().unwrap(),
        EkkoError::RequestReadField("originator", "missing originator for type: 13".to_string())
    );
    assert_eq!(
        classify_v6(135, 0, 1).err().unwrap(),
        EkkoError::RequestReadField("originator", "missing originator for type: 135".to_string())
    );
}

#[test]
fn classify_of_a_truncated_message_is_an_error() {
    let outcome = EkkoResponse::new((RESPONDER_V4, 1), (0, 0), EkkoPacket::V4(&[]));
    assert_eq!(
        outcome.err().unwrap(),
        EkkoError::ResponseReadField("type", "failed to fill whole buffer".to_string())
    );
    let outcome = EkkoResponse::new((RESPONDER_V4, 1), (0, 0), EkkoPacket::V4(&[0, 0, 0, 0, 1]));
    assert_eq!(
        outcome.err().unwrap(),
        EkkoError::ResponseReadField("identifier", "failed to fill whole buffer".to_string())
    );
    let outcome =
        EkkoResponse::new((RESPONDER_V4, 1), (0, 0), EkkoPacket::V4(&[0, 0, 0, 0, 1, 2, 3]));
    assert_eq!(
        outcome.err().unwrap(),
        EkkoError::ResponseReadField("sequence number", "failed to fill whole buffer".to_string())
    );
}

#[test]
fn classify_goes_by_the_family_of_the_responder() {
    // An IPv6 message of type 3 is time exceeded; the table of an IPv4
    // responder sends type 3 to the unreachable decoder, which refuses it.
    let bytes = message_v6(3, 0);
    let outcome = EkkoResponse::new((RESPONDER_V4, 1), (0, 0), EkkoPacket::V6(&bytes));
    assert_eq!(
        outcome.err().unwrap(),
        EkkoError::RequestReadIcmpv6Type("unreachable", "not an unreachable response".to_string())
    );
}

#[test]
fn data_of_every_variant() {
    let data = EkkoData {
        timepoint: 1,
        elapsed: 2,
        address: None,
        identifier: 3,
        sequence: 4,
        hops: 5,
    };
    let unreachable = Unreachable::V6(UnreachableCodeV6::NoRouteToDestination);
    let all = [
        EkkoResponse::Unreachable((data, unreachable)),
        EkkoResponse::PacketTooBig(data),
        EkkoResponse::SourceQuench(data),
        EkkoResponse::Destination(data),
        EkkoResponse::ParameterProblem((data, 0)),
        EkkoResponse::Unexpected((data, (1, 2))),
        EkkoResponse::Redirect((data, Redirect::Unexpected(9))),
        EkkoResponse::Exceeded(data),
        EkkoResponse::Lacking(data),
    ];
    for response in all {
        let found = response.data();
        assert_eq!(found.timepoint, 1);
        assert_eq!(found.elapsed, 2);
        assert_eq!(found.address, None);
        assert_eq!(found.identifier, 3);
        assert_eq!(found.sequence, 4);
        assert_eq!(found.hops, 5);
    }
}

#[test]
fn data_is_equal_by_responder_and_hops() {
    let left = EkkoData {
        timepoint: 1,
        elapsed: 2,
        address: Some(RESPONDER_V4),
        identifier: 3,
        sequence: 4,
        hops: 5,
    };
    let same = EkkoData { timepoint: 9, elapsed: 9, identifier: 9, sequence: 9, ..left };
    assert!(left == same);
    assert!(left != EkkoData { hops: 6, ..left });
    assert!(left != EkkoData { address: None, ..left });
    assert!(left != EkkoData { address: Some(RESPONDER_V6), ..left });
    assert!(left != EkkoData { address: Some(IpAddress::V4([198, 51, 100, 8])), ..left });
    let nobody = EkkoData { address: None, ..left };
    assert!(nobody == EkkoData { address: None, elapsed: 77, ..left });
}

#[test]
fn data_is_ordered_by_hops() {
    let near = EkkoData {
        timepoint: 9,
        elapsed: 9,
        address: Some(RESPONDER_V6),
        identifier: 9,
        sequence: 9,
        hops: 1,
    };
    let far = EkkoData {
        timepoint: 0,
        elapsed: 0,
        address: None,
        identifier: 0,
        sequence: 0,
        hops: 2,
    };
    assert_eq!(near.partial_cmp(&far), Some(Ordering::Less));
    assert_eq!(far.partial_cmp(&near), Some(Ordering::Greater));
    assert_eq!(near.partial_cmp(&EkkoData { hops: 1, ..far }), Some(Ordering::Equal));
    assert!(near < far);
    assert!(far > near);
    assert!(near <= EkkoData { hops: 1, ..far });
}

#[test]
fn addresses_are_equal_by_family_and_value() {
    assert!(RESPONDER_V4 == IpAddress::V4([198, 51, 100, 7]));
    assert!(RESPONDER_V4 != IpAddress::V4([198, 51, 100, 8]));
    assert!(RESPONDER_V4 != IpAddress::V4([199, 51, 100, 7]));
    assert!(RESPONDER_V6 == IpAddress::V6([0x2001, 0x0db8, 0, 0, 0, 0, 0, 7]));
    assert!(RESPONDER_V6 != IpAddress::V6([0x2001, 0x0db8, 0, 0, 0, 0, 1, 7]));
    assert!(RESPONDER_V4 != RESPONDER_V6);
    assert!(IpAddress::V4([0, 0, 0, 0]) != IpAddress::V6([0; 8]));
    assert_eq!(RESPONDER_V4.family(), Family::V4);
    assert_eq!(RESPONDER_V6.family(), Family::V6);
    assert_eq!(IpAddress::unspecified(Family::V4), IpAddress::V4([0, 0, 0, 0]));
    assert_eq!(IpAddress::unspecified(Family::V6), IpAddress::V6([0; 8]));
}

#[test]
fn errors_report_faults() {
    assert_eq!(
        EkkoError::of(Fault::Read(ReadField::Checksum)),
        EkkoError::ResponseReadField("checksum", "failed to fill whole buffer".to_string())
    );
    assert_eq!(
        EkkoError::of(Fault::Write(Family::V4, WriteField::Identifier)),
        EkkoError::RequestWriteIcmpv4Field(
            "identifier",
            "failed to write whole buffer".to_string()
        )
    );
    assert_eq!(
        EkkoError::of(Fault::Write(Family::V6, WriteField::Payload)),
        EkkoError::RequestWriteIcmpv6Payload("failed to write whole buffer".to_string())
    );
    for kind in [0u8, 7, 9, 10, 42, 99, 100, 101, 110, 199, 200, 255] {
        assert_eq!(
            EkkoError::of(Fault::MissingOriginator(kind)),
            EkkoError::RequestReadField(
                "originator",
                format!("missing originator for type: {}", kind)
            )
        );
    }
    assert_eq!(ReadField::Sequence.label(), "sequence number");
    assert_eq!(WriteField::Sequence.label(), "sequence");
    assert_eq!(WriteField::ChecksumPlaceholder.label(), "checksum placeholder");
}
