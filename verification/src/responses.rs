//! The outcomes of a probe, and the classifier that produces them.

use crate::address::{Family, IpAddress};
use crate::error::{EkkoError, Fault, ReadField};
use crate::packets::{
    byte_at, conforms, decode_redirect, decode_unreachable, identifier, packet_code, packet_type,
    redirect_of, report, resolve, sequence, unreachable_of, EkkoPacket,
};
use std::cmp::Ordering;
use vstd::prelude::*;

verus! {

/// Why an IPv4 destination was unreachable: the code of an ICMPv4
/// destination-unreachable message.
#[derive(Clone, Copy, Debug, PartialEq)]
pub enum UnreachableCodeV4 {
    CommunicationAdministrativelyProhibited,
    NetworkAdministrativelyProhibited,
    HostAdministrativelyProhibited,
    DestinationProtocolUnreachable,
    DestinationNetworkUnreachable,
    DestinationHostUnreachable,
    DestinationPortUnreachable,
    DestinationNetworkUnknown,
    HostPrecedenceViolation,
    DestinationHostUnknown,
    /// Contains next hops max transmission unit.
    FragmentationRequired(u16),
    SourceHostIsolated,
    NetworkUnreachable,
    SourceRouteFailed,
    PrecedenceCutoff,
    HostUnreachable,
    /// Contains unexpected code.
    Unexpected(u8),
}

/// Why an IPv6 destination was unreachable: the code of an ICMPv6
/// destination-unreachable message.
#[derive(Clone, Copy, Debug, PartialEq)]
pub enum UnreachableCodeV6 {
    CommunicationWithDestinationAdministrativelyProhibited,
    SourceAddressFailedIngressEgressPolicy,
    ErrorInSourceRoutingHeader,
    BeyondScopeOfSourceAddress,
    RejectRouteToDestination,
    NoRouteToDestination,
    AddressUnreachable,
    PortUnreachable,
    /// Contains unexpected code.
    Unexpected(u8),
}

/// Why a destination was unreachable.
#[derive(Clone, Copy, Debug, PartialEq)]
pub enum Unreachable {
    V4(UnreachableCodeV4),
    V6(UnreachableCodeV6),
}

/// What an ICMPv4 redirect asks for. Each known kind carries the octets of
/// the gateway to use instead.
#[derive(Clone, Copy, Debug, PartialEq)]
pub enum Redirect {
    RedirectDatagramsForTypeServiceNetwork([u8; 4]),
    RedirectDatagramsForTypeServiceHost([u8; 4]),
    RedirectDatagramsForNetwork([u8; 4]),
    RedirectDatagramsForHost([u8; 4]),
    /// Contains unexpected code.
    Unexpected(u8),
}

/// The destination-unreachable reason that ICMPv4 `code` stands for; of the
/// known codes only fragmentation-required carries the next-hop `mtu`.
pub open spec fn unreachable_v4(code: u8, mtu: u16) -> UnreachableCodeV4 {
    if code == 0 {
        UnreachableCodeV4::DestinationNetworkUnreachable
    } else if code == 1 {
        UnreachableCodeV4::DestinationHostUnreachable
    } else if code == 2 {
        UnreachableCodeV4::DestinationProtocolUnreachable
    } else if code == 3 {
        UnreachableCodeV4::DestinationPortUnreachable
    } else if code == 4 {
        UnreachableCodeV4::FragmentationRequired(mtu)
    } else if code == 5 {
        UnreachableCodeV4::SourceRouteFailed
    } else if code == 6 {
        UnreachableCodeV4::DestinationNetworkUnknown
    } else if code == 7 {
        UnreachableCodeV4::DestinationHostUnknown
    } else if code == 8 {
        UnreachableCodeV4::SourceHostIsolated
    } else if code == 9 {
        UnreachableCodeV4::NetworkAdministrativelyProhibited
    } else if code == 10 {
        UnreachableCodeV4::HostAdministrativelyProhibited
    } else if code == 11 {
        UnreachableCodeV4::NetworkUnreachable
    } else if code == 12 {
        UnreachableCodeV4::HostUnreachable
    } else if code == 13 {
        UnreachableCodeV4::CommunicationAdministrativelyProhibited
    } else if code == 14 {
        UnreachableCodeV4::HostPrecedenceViolation
    } else if code == 15 {
        UnreachableCodeV4::PrecedenceCutoff
    } else {
        UnreachableCodeV4::Unexpected(code)
    }
}

/// The destination-unreachable reason that ICMPv6 `code` stands for.
pub open spec fn unreachable_v6(code: u8) -> UnreachableCodeV6 {
    if code == 0 {
        UnreachableCodeV6::NoRouteToDestination
    } else if code == 1 {
        UnreachableCodeV6::CommunicationWithDestinationAdministrativelyProhibited
    } else if code == 2 {
        UnreachableCodeV6::BeyondScopeOfSourceAddress
    } else if code == 3 {
        UnreachableCodeV6::AddressUnreachable
    } else if code == 4 {
        UnreachableCodeV6::PortUnreachable
    } else if code == 5 {
        UnreachableCodeV6::SourceAddressFailedIngressEgressPolicy
    } else if code == 6 {
        UnreachableCodeV6::RejectRouteToDestination
    } else if code == 7 {
        UnreachableCodeV6::ErrorInSourceRoutingHeader
    } else {
        UnreachableCodeV6::Unexpected(code)
    }
}

/// The redirect that ICMPv4 `code` stands for, with the `gateway` it names.
pub open spec fn redirect_v4(code: u8, gateway: [u8; 4]) -> Redirect {
    if code == 0 {
        Redirect::RedirectDatagramsForNetwork(gateway)
    } else if code == 1 {
        Redirect::RedirectDatagramsForHost(gateway)
    } else if code == 2 {
        Redirect::RedirectDatagramsForTypeServiceNetwork(gateway)
    } else if code == 3 {
        Redirect::RedirectDatagramsForTypeServiceHost(gateway)
    } else {
        Redirect::Unexpected(code)
    }
}

/// What every outcome records of its attempt.
///
/// Two records are equal when responder and hop count are; they are ordered
/// by hop count alone, the order in which a trace is presented.
#[derive(Clone, Copy, Debug, Eq)]
pub struct EkkoData {
    /// Timepoint for send: a reading, in nanoseconds, of the caller's
    /// monotonic clock.
    pub timepoint: u64,
    /// Elapsed time since send, in nanoseconds.
    pub elapsed: u64,
    /// Responders address.
    pub address: Option<IpAddress>,
    /// Echo requests identifier.
    pub identifier: u16,
    /// Echo requests sequence.
    pub sequence: u16,
    /// Number of hops.
    pub hops: u32,
}

impl PartialEq for EkkoData {
    fn eq(&self, other: &Self) -> (equal: bool) {
        let same_address: bool = match (self.address, other.address) {
            (Some(left), Some(right)) => left == right,
            (None, None) => true,
            _ => false,
        };
        same_address && self.hops == other.hops
    }
}

impl vstd::std_specs::cmp::PartialEqSpecImpl for EkkoData {
    open spec fn obeys_eq_spec() -> bool {
        true
    }

    open spec fn eq_spec(&self, other: &Self) -> bool {
        self.address == other.address && self.hops == other.hops
    }
}

impl PartialOrd for EkkoData {
    fn partial_cmp(&self, other: &Self) -> (order: Option<Ordering>) {
        if self.hops < other.hops {
            Some(Ordering::Less)
        } else if self.hops > other.hops {
            Some(Ordering::Greater)
        } else {
            Some(Ordering::Equal)
        }
    }
}

impl vstd::std_specs::cmp::PartialOrdSpecImpl for EkkoData {
    open spec fn obeys_partial_cmp_spec() -> bool {
        true
    }

    open spec fn partial_cmp_spec(&self, other: &Self) -> Option<Ordering> {
        if self.hops < other.hops {
            Some(Ordering::Less)
        } else if self.hops > other.hops {
            Some(Ordering::Greater)
        } else {
            Some(Ordering::Equal)
        }
    }
}

/// The outcome of one attempt.
#[derive(Clone, Copy, Debug, PartialEq)]
pub enum EkkoResponse {
    /// The destination, or the way to it, is unreachable.
    Unreachable((EkkoData, Unreachable)),
    /// IPv6 only: the request was too big for a link on the way.
    PacketTooBig(EkkoData),
    /// IPv4 only: a hop asked the sender to slow down.
    SourceQuench(EkkoData),
    /// The destination replied.
    Destination(EkkoData),
    /// A hop found a problem in the request's header; contains the code.
    ParameterProblem((EkkoData, u8)),
    /// A message of a type without a meaning here; contains type and code.
    Unexpected((EkkoData, (u8, u8))),
    /// IPv4 only: a hop named a better gateway.
    Redirect((EkkoData, Redirect)),
    /// The hop limit ran out in transit.
    Exceeded(EkkoData),
    /// The deadline passed without a matching reply.
    Lacking(EkkoData),
}

/// The record of an answered attempt: responder `net.0`, hop count `net.1`,
/// send time `time.0`, elapsed time `time.1`, and the identifier and
/// sequence number that the message resolves to.
pub open spec fn answered(
    net: (IpAddress, u32),
    time: (u64, u64),
    family: Family,
    bytes: Seq<u8>,
) -> Result<EkkoData, Fault> {
    match identifier(family, bytes) {
        Err(fault) => Err(fault),
        Ok(identifier) => match sequence(family, bytes) {
            Err(fault) => Err(fault),
            Ok(sequence) => Ok(
                EkkoData {
                    timepoint: time.0,
                    elapsed: time.1,
                    address: Some(net.0),
                    identifier,
                    sequence,
                    hops: net.1,
                },
            ),
        },
    }
}

/// The outcome that a message of ICMP type `kind` from an IPv4 responder
/// stands for.
pub open spec fn classify_v4(data: EkkoData, kind: u8, family: Family, bytes: Seq<u8>) -> Result<
    EkkoResponse,
    Fault,
> {
    if kind == 0 {
        Ok(EkkoResponse::Destination(data))
    } else if kind == 3 {
        match unreachable_of(family, bytes) {
            Err(fault) => Err(fault),
            Ok(detail) => Ok(EkkoResponse::Unreachable((data, detail))),
        }
    } else if kind == 4 {
        Ok(EkkoResponse::SourceQuench(data))
    } else if kind == 5 {
        match redirect_of(family, bytes) {
            Err(fault) => Err(fault),
            Ok(detail) => Ok(EkkoResponse::Redirect((data, detail))),
        }
    } else if kind == 11 {
        Ok(EkkoResponse::Exceeded(data))
    } else {
        match packet_code(bytes) {
            Err(fault) => Err(fault),
            Ok(code) => if kind == 12 {
                Ok(EkkoResponse::ParameterProblem((data, code)))
            } else {
                Ok(EkkoResponse::Unexpected((data, (kind, code))))
            },
        }
    }
}

/// The outcome that a message of ICMP type `kind` from an IPv6 responder
/// stands for.
pub open spec fn classify_v6(data: EkkoData, kind: u8, family: Family, bytes: Seq<u8>) -> Result<
    EkkoResponse,
    Fault,
> {
    if kind == 129 {
        Ok(EkkoResponse::Destination(data))
    } else if kind == 1 {
        match unreachable_of(family, bytes) {
            Err(fault) => Err(fault),
            Ok(detail) => Ok(EkkoResponse::Unreachable((data, detail))),
        }
    } else if kind == 2 {
        Ok(EkkoResponse::PacketTooBig(data))
    } else if kind == 3 {
        Ok(EkkoResponse::Exceeded(data))
    } else {
        match packet_code(bytes) {
            Err(fault) => Err(fault),
            Ok(code) => if kind == 4 {
                Ok(EkkoResponse::ParameterProblem((data, code)))
            } else {
                Ok(EkkoResponse::Unexpected((data, (kind, code))))
            },
        }
    }
}

/// The outcome that a message of `family` with these `bytes` stands for,
/// received from `net.0` in answer to an attempt with hop count `net.1`
/// that was sent at `time.0` and took `time.1`. The family of the responder
/// picks the table; the fields are read in the order type, identifier,
/// sequence number, detail, and the first read that fails is the fault.
pub open spec fn classify(
    net: (IpAddress, u32),
    time: (u64, u64),
    family: Family,
    bytes: Seq<u8>,
) -> Result<EkkoResponse, Fault> {
    match packet_type(bytes) {
        Err(fault) => Err(fault),
        Ok(kind) => match answered(net, time, family, bytes) {
            Err(fault) => Err(fault),
            Ok(data) => match net.0 {
                IpAddress::V4(_) => classify_v4(data, kind, family, bytes),
                IpAddress::V6(_) => classify_v6(data, kind, family, bytes),
            },
        },
    }
}

/// Classifies the message `data` of `family`.
pub(crate) fn classify_packet(
    net: (IpAddress, u32),
    time: (u64, u64),
    family: Family,
    data: &[u8],
) -> (outcome: Result<EkkoResponse, Fault>)
    ensures
        outcome == classify(net, time, family, data@),
{
    let kind: u8 = match byte_at(data, 0, ReadField::Type) {
        Ok(kind) => kind,
        Err(fault) => { return Err(fault); },
    };
    let identifier: u16 = match resolve(family, data, 4, ReadField::Identifier) {
        Ok(value) => value,
        Err(fault) => { return Err(fault); },
    };
    let sequence: u16 = match resolve(family, data, 6, ReadField::Sequence) {
        Ok(value) => value,
        Err(fault) => { return Err(fault); },
    };
    let record = EkkoData {
        timepoint: time.0,
        elapsed: time.1,
        address: Some(net.0),
        identifier,
        sequence,
        hops: net.1,
    };
    match net.0 {
        IpAddress::V4(_) => match kind {
            3 => match decode_unreachable(family, data) {
                Ok(detail) => Ok(EkkoResponse::Unreachable((record, detail))),
                Err(fault) => Err(fault),
            },
            4 => Ok(EkkoResponse::SourceQuench(record)),
            5 => match decode_redirect(family, data) {
                Ok(detail) => Ok(EkkoResponse::Redirect((record, detail))),
                Err(fault) => Err(fault),
            },
            11 => Ok(EkkoResponse::Exceeded(record)),
            0 => Ok(EkkoResponse::Destination(record)),
            12 => match byte_at(data, 1, ReadField::Code) {
                Ok(code) => Ok(EkkoResponse::ParameterProblem((record, code))),
                Err(fault) => Err(fault),
            },
            _ => match byte_at(data, 1, ReadField::Code) {
                Ok(code) => Ok(EkkoResponse::Unexpected((record, (kind, code)))),
                Err(fault) => Err(fault),
            },
        },
        IpAddress::V6(_) => match kind {
            1 => match decode_unreachable(family, data) {
                Ok(detail) => Ok(EkkoResponse::Unreachable((record, detail))),
                Err(fault) => Err(fault),
            },
            2 => Ok(EkkoResponse::PacketTooBig(record)),
            3 => Ok(EkkoResponse::Exceeded(record)),
            129 => Ok(EkkoResponse::Destination(record)),
            4 => match byte_at(data, 1, ReadField::Code) {
                Ok(code) => Ok(EkkoResponse::ParameterProblem((record, code))),
                Err(fault) => Err(fault),
            },
            _ => match byte_at(data, 1, ReadField::Code) {
                Ok(code) => Ok(EkkoResponse::Unexpected((record, (kind, code)))),
                Err(fault) => Err(fault),
            },
        },
    }
}

impl EkkoResponse {
    /// The record of the attempt that this is the outcome of.
    pub open spec fn spec_data(&self) -> EkkoData {
        match *self {
            EkkoResponse::Unreachable((data, _)) => data,
            EkkoResponse::PacketTooBig(data) => data,
            EkkoResponse::SourceQuench(data) => data,
            EkkoResponse::Destination(data) => data,
            EkkoResponse::ParameterProblem((data, _)) => data,
            EkkoResponse::Unexpected((data, _)) => data,
            EkkoResponse::Redirect((data, _)) => data,
            EkkoResponse::Exceeded(data) => data,
            EkkoResponse::Lacking(data) => data,
        }
    }

    /// The record of the attempt that this is the outcome of.
    #[verifier::when_used_as_spec(spec_data)]
    pub fn data(&self) -> (data: EkkoData)
        ensures
            data == self.spec_data(),
    {
        match *self {
            EkkoResponse::Unreachable((data, _)) => data,
            EkkoResponse::PacketTooBig(data) => data,
            EkkoResponse::SourceQuench(data) => data,
            EkkoResponse::Destination(data) => data,
            EkkoResponse::ParameterProblem((data, _)) => data,
            EkkoResponse::Unexpected((data, _)) => data,
            EkkoResponse::Redirect((data, _)) => data,
            EkkoResponse::Exceeded(data) => data,
            EkkoResponse::Lacking(data) => data,
        }
    }

    /// Classifies `packet`, received from `net.0` in answer to an attempt
    /// with hop count `net.1` that was sent at `time.0` and took `time.1`.
    pub fn new(net: (IpAddress, u32), time: (u64, u64), packet: EkkoPacket) -> (outcome: Result<
        Self,
        EkkoError,
    >)
        ensures
            conforms(outcome, classify(net, time, packet.spec_family(), packet.bytes())),
    {
        report(classify_packet(net, time, packet.family(), packet.as_slice()))
    }
}

/// The classifier is total on the messages of a session: a message of the
/// responder's family whose identifier and sequence number can be read
/// always has an outcome, which carries the record of the attempt and is of
/// the variant that the table of its family gives for the ICMP type; a type
/// that the table does not name gives an unexpected outcome with type and
/// code, whatever the code.
pub proof fn lemma_classify_total(net: (IpAddress, u32), time: (u64, u64), bytes: Seq<u8>)
    requires
        identifier(net.0.spec_family(), bytes) is Ok,
        sequence(net.0.spec_family(), bytes) is Ok,
    ensures
        ({
            let family = net.0.spec_family();
            let kind = bytes[0];
            let code = bytes[1];
            &&& bytes.len() >= 2
            &&& answered(net, time, family, bytes) matches Ok(data)
            &&& classify(net, time, family, bytes) matches Ok(response)
            &&& response.spec_data() == data
            &&& data.hops == net.1
            &&& data.address == Some(net.0)
            &&& family == Family::V4 ==> {
                &&& kind == 0 <==> response is Destination
                &&& kind == 3 <==> response is Unreachable
                &&& kind == 4 <==> response is SourceQuench
                &&& kind == 5 <==> response is Redirect
                &&& kind == 11 <==> response is Exceeded
                &&& kind == 12 <==> response == EkkoResponse::ParameterProblem((data, code))
                &&& !(kind == 0 || kind == 3 || kind == 4 || kind == 5 || kind == 11 || kind == 12)
                    <==> response == EkkoResponse::Unexpected((data, (kind, code)))
                &&& response !is PacketTooBig
            }
            &&& family == Family::V6 ==> {
                &&& kind == 129 <==> response is Destination
                &&& kind == 1 <==> response is Unreachable
                &&& kind == 2 <==> response is PacketTooBig
                &&& kind == 3 <==> response is Exceeded
                &&& kind == 4 <==> response == EkkoResponse::ParameterProblem((data, code))
                &&& !(kind == 129 || kind == 1 || kind == 2 || kind == 3 || kind == 4)
                    <==> response == EkkoResponse::Unexpected((data, (kind, code)))
                &&& response !is SourceQuench
                &&& response !is Redirect
            }
            &&& response !is Lacking
        }),
{
}

} // verus!
