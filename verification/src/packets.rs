//! The echo packet codec: building echo requests, and reading the fields of
//! any ICMP message, through the echo request that an error message embeds
//! where the message itself carries none.

use crate::address::{Family, IpAddress};
use crate::checksum::{
    checksum_v4, checksum_v6, data_sum, fold, lemma_checksum_v4_verifies,
    lemma_checksum_v6_verifies, lemma_complement_cancels, lemma_data_sum_patched, segments_sum,
    spec_checksum_v4, spec_checksum_v6, with_checksum, word, word_at,
};
use crate::error::{EkkoError, Fault, ReadField, WriteField};
use crate::random::random_bytes;
use crate::responses::{
    redirect_v4, unreachable_v4, unreachable_v6, Redirect, Unreachable, UnreachableCodeV4,
    UnreachableCodeV6,
};
use crate::wire::{read_u16_be, write_u16_be};
use vstd::prelude::*;
use vstd::slice::slice_subrange;

verus! {

/// The length of the header of an echo packet.
pub const HEADER_LENGTH: usize = 8;

/// The number of filler bytes behind the header of an IPv4 echo request.
pub const FILLER_LENGTH_V4: usize = 36;

/// The number of filler bytes behind the header of an IPv6 echo request.
pub const FILLER_LENGTH_V6: usize = 16;

/// Where the echo request starts that an ICMPv6 error message embeds: behind
/// the eight bytes of the error's own header and the forty of the IPv6
/// header that the request travelled under.
pub const ORIGINATOR_OFFSET_V6: usize = 48;

/// An ICMP message of one address family, as a view of its bytes.
#[derive(Clone, Copy, Debug)]
pub enum EkkoPacket<'a> {
    V4(&'a [u8]),
    V6(&'a [u8]),
}

/// The byte at offset `at`, or the fault of reading `field` past the end.
pub open spec fn read_u8_at(bytes: Seq<u8>, at: int, field: ReadField) -> Result<u8, Fault> {
    if 0 <= at < bytes.len() {
        Ok(bytes[at])
    } else {
        Err(Fault::Read(field))
    }
}

/// The big-endian 16-bit value at offsets `at` and `at + 1`, or the fault of
/// reading `field` past the end.
pub open spec fn read_u16_at(bytes: Seq<u8>, at: int, field: ReadField) -> Result<u16, Fault> {
    if 0 <= at && at + 2 <= bytes.len() {
        Ok(word(bytes[at], bytes[at + 1]) as u16)
    } else {
        Err(Fault::Read(field))
    }
}

/// The ICMP type of a message, at offset 0.
pub open spec fn packet_type(bytes: Seq<u8>) -> Result<u8, Fault> {
    read_u8_at(bytes, 0, ReadField::Type)
}

/// The ICMP code of a message, at offset 1.
pub open spec fn packet_code(bytes: Seq<u8>) -> Result<u8, Fault> {
    read_u8_at(bytes, 1, ReadField::Code)
}

/// The checksum field of a message, at offset 2.
pub open spec fn packet_checksum(bytes: Seq<u8>) -> Result<u16, Fault> {
    read_u16_at(bytes, 2, ReadField::Checksum)
}

/// The ICMP type of an echo request of `family`.
pub open spec fn echo_request(family: Family) -> u8 {
    match family {
        Family::V4 => 8,
        Family::V6 => 128,
    }
}

/// The ICMP type of an echo reply of `family`.
pub open spec fn echo_reply(family: Family) -> u8 {
    match family {
        Family::V4 => 0,
        Family::V6 => 129,
    }
}

/// Whether `kind` is the type of an echo request or reply of `family`: such a
/// message carries identifier and sequence in its own header.
pub open spec fn is_echo(family: Family, kind: u8) -> bool {
    kind == echo_request(family) || kind == echo_reply(family)
}

/// Whether a message of type `kind` embeds the echo request that caused it.
/// For IPv4 these are destination unreachable (3), source quench (4),
/// redirect (5), time exceeded (11) and parameter problem (12); for IPv6
/// destination unreachable (1), packet too big (2), time exceeded (3) and
/// parameter problem (4).
pub open spec fn embeds_originator(family: Family, kind: u8) -> bool {
    match family {
        Family::V4 => kind == 3 || kind == 4 || kind == 5 || kind == 11 || kind == 12,
        Family::V6 => kind == 1 || kind == 2 || kind == 3 || kind == 4,
    }
}

/// The length in bytes of an IPv4 header whose first byte is `first`: the low
/// nibble counts 32-bit words.
pub open spec fn header_octets(first: u8) -> int {
    (first % 16) * 4
}

/// Where the embedded echo request starts in an error message.
pub open spec fn originator_offset(family: Family, bytes: Seq<u8>) -> Result<int, Fault> {
    match packet_type(bytes) {
        Err(fault) => Err(fault),
        Ok(kind) => if !embeds_originator(family, kind) {
            Err(Fault::MissingOriginator(kind))
        } else {
            match family {
                Family::V6 => Ok(48),
                Family::V4 => match read_u8_at(bytes, 8, ReadField::HeaderSize) {
                    Err(fault) => Err(fault),
                    Ok(first) => Ok(8 + header_octets(first)),
                },
            }
        },
    }
}

/// The echo request that an error message embeds: what follows the error's
/// header and the IP header of the request. A message that ends before the
/// embedded request starts has none to read.
pub open spec fn originator(family: Family, bytes: Seq<u8>) -> Result<Seq<u8>, Fault> {
    match originator_offset(family, bytes) {
        Err(fault) => Err(fault),
        Ok(offset) => if offset <= bytes.len() {
            Ok(bytes.skip(offset))
        } else {
            Err(Fault::Read(ReadField::Originator))
        },
    }
}

/// The 16-bit header field at offset `at` of the echo message that `bytes`
/// is or embeds: read directly from an echo request or reply, and from the
/// embedded request, however deeply nested, of anything else.
pub open spec fn echo_field(family: Family, bytes: Seq<u8>, at: int, field: ReadField) -> Result<
    u16,
    Fault,
>
    decreases bytes.len(),
{
    match packet_type(bytes) {
        Err(fault) => Err(fault),
        Ok(kind) => if is_echo(family, kind) {
            read_u16_at(bytes, at, field)
        } else {
            match originator(family, bytes) {
                Err(fault) => Err(fault),
                Ok(inner) => echo_field(family, inner, at, field),
            }
        },
    }
}

/// The identifier of the echo request that a message answers.
pub open spec fn identifier(family: Family, bytes: Seq<u8>) -> Result<u16, Fault> {
    echo_field(family, bytes, 4, ReadField::Identifier)
}

/// The sequence number of the echo request that a message answers.
pub open spec fn sequence(family: Family, bytes: Seq<u8>) -> Result<u16, Fault> {
    echo_field(family, bytes, 6, ReadField::Sequence)
}

/// What an ICMPv4 redirect asks for: the kind from the code, the gateway from
/// the four bytes at offset 4. No IPv6 message is a redirect.
pub open spec fn redirect_of(family: Family, bytes: Seq<u8>) -> Result<Redirect, Fault> {
    match packet_type(bytes) {
        Err(fault) => Err(fault),
        Ok(kind) => if family == Family::V6 || kind != 5 {
            Err(Fault::NotRedirect(family))
        } else if bytes.len() < 8 {
            Err(Fault::Read(ReadField::Gateway))
        } else {
            Ok(redirect_v4(bytes[1], [bytes[4], bytes[5], bytes[6], bytes[7]]))
        },
    }
}

/// Why a destination was unreachable: for IPv4 type 3, the reason from the
/// code with the next-hop MTU from offset 6; for IPv6 type 1, the reason from
/// the code.
pub open spec fn unreachable_of(family: Family, bytes: Seq<u8>) -> Result<Unreachable, Fault> {
    match packet_type(bytes) {
        Err(fault) => Err(fault),
        Ok(kind) => match family {
            Family::V4 => if kind != 3 {
                Err(Fault::NotUnreachable(family))
            } else {
                match read_u16_at(bytes, 6, ReadField::NextHopMtu) {
                    Err(fault) => Err(fault),
                    Ok(mtu) => Ok(Unreachable::V4(unreachable_v4(bytes[1], mtu))),
                }
            },
            Family::V6 => if kind != 1 {
                Err(Fault::NotUnreachable(family))
            } else {
                match packet_code(bytes) {
                    Err(fault) => Err(fault),
                    Ok(code) => Ok(Unreachable::V6(unreachable_v6(code))),
                }
            },
        },
    }
}

/// The ICMP message in a datagram as a raw socket delivers it: an IPv4
/// datagram starts with its IP header, whose first byte tells its length; an
/// IPv6 datagram is the message itself.
pub open spec fn icmp_message(family: Family, datagram: Seq<u8>) -> Result<Seq<u8>, Fault> {
    match family {
        Family::V6 => Ok(datagram),
        Family::V4 => match read_u8_at(datagram, 0, ReadField::HeaderSize) {
            Err(fault) => Err(fault),
            Ok(first) => if header_octets(first) <= datagram.len() {
                Ok(datagram.skip(header_octets(first)))
            } else {
                Err(Fault::Read(ReadField::Header))
            },
        },
    }
}

/// The header of an echo request with identifier `pkt.0` and sequence number
/// `pkt.1`, its checksum field still zero, followed by `payload`.
pub open spec fn request_image(family: Family, pkt: (u16, u16), payload: Seq<u8>) -> Seq<u8> {
    seq![
        echo_request(family),
        0u8,
        0u8,
        0u8,
        (pkt.0 / 256) as u8,
        (pkt.0 % 256) as u8,
        (pkt.1 / 256) as u8,
        (pkt.1 % 256) as u8,
    ] + payload
}

/// `before` with `image` written over its start: as much of the image as
/// there is room for.
pub open spec fn overlay(before: Seq<u8>, image: Seq<u8>) -> Seq<u8> {
    Seq::new(before.len(), |i: int| if i < image.len() { image[i] } else { before[i] })
}

/// The first part of an echo request that a buffer of `room` bytes, too short
/// for the whole request, has no room for.
pub open spec fn write_field(room: nat) -> WriteField {
    if room < 1 {
        WriteField::Type
    } else if room < 2 {
        WriteField::Code
    } else if room < 4 {
        WriteField::ChecksumPlaceholder
    } else if room < 6 {
        WriteField::Identifier
    } else if room < 8 {
        WriteField::Sequence
    } else {
        WriteField::Payload
    }
}

/// The fault, if any, of writing an echo request with `payload` bytes of
/// payload into a buffer of `room` bytes: there is one exactly when the
/// buffer is shorter than header and payload together.
pub open spec fn request_fault(family: Family, room: nat, payload: nat) -> Option<Fault> {
    if room >= 8 + payload {
        None
    } else {
        Some(Fault::Write(family, write_field(room)))
    }
}

/// The upper-layer length that the IPv6 pseudo-header of a request of `len`
/// bytes declares: the length of the request, as a 32-bit field.
pub open spec fn pseudo_length(len: nat) -> u32 {
    (len % 0x1_0000_0000) as u32
}

/// The buffer `before` after an IPv4 echo request was written into it: the
/// request over its start, and, where the whole request fits, the checksum
/// of the whole buffer in the checksum field.
pub open spec fn request_v4(before: Seq<u8>, pkt: (u16, u16), payload: Seq<u8>) -> Seq<u8> {
    let written = overlay(before, request_image(Family::V4, pkt, payload));
    if before.len() >= 8 + payload.len() {
        with_checksum(written, spec_checksum_v4(written))
    } else {
        written
    }
}

/// The buffer `before` after an IPv6 echo request between the addresses with
/// segments `net.0` and `net.1` was written into it: as for IPv4, with the
/// checksum that includes the pseudo-header. The upper-layer length in the
/// pseudo-header is the length of the whole buffer, which is what is sent.
pub open spec fn request_v6(
    before: Seq<u8>,
    pkt: (u16, u16),
    net: ([u16; 8], [u16; 8]),
    payload: Seq<u8>,
) -> Seq<u8> {
    let written = overlay(before, request_image(Family::V6, pkt, payload));
    if before.len() >= 8 + payload.len() {
        with_checksum(
            written,
            spec_checksum_v6(written, net.0, net.1, pseudo_length(written.len())),
        )
    } else {
        written
    }
}

/// Whether `bytes` are an IPv4 echo request with identifier `pkt.0` and
/// sequence number `pkt.1` that is fit to send: it has the type and code of
/// an echo request, it decodes to the pair, its checksum field holds the
/// checksum of the bytes with that field zeroed, and it passes the
/// self-check, which is to say that the sum of all its words folds to
/// `0xFFFF` and its checksum is zero.
pub open spec fn is_request_v4(pkt: (u16, u16), bytes: Seq<u8>) -> bool {
    &&& packet_type(bytes) == Ok::<u8, Fault>(8)
    &&& packet_code(bytes) == Ok::<u8, Fault>(0)
    &&& identifier(Family::V4, bytes) == Ok::<u16, Fault>(pkt.0)
    &&& sequence(Family::V4, bytes) == Ok::<u16, Fault>(pkt.1)
    &&& packet_checksum(bytes) == Ok::<u16, Fault>(spec_checksum_v4(with_checksum(bytes, 0)))
    &&& fold(data_sum(bytes)) == 0xFFFF
    &&& spec_checksum_v4(bytes) == 0
}

/// Whether `bytes` are an IPv6 echo request with identifier `pkt.0` and
/// sequence number `pkt.1`, between the addresses with segments `net.0` and
/// `net.1`, that is fit to send: as for IPv4, with the type of an ICMPv6 echo
/// request, and with the pseudo-header of both addresses, the length of
/// `bytes` and the next-header value 58 in every sum.
pub open spec fn is_request_v6(pkt: (u16, u16), net: ([u16; 8], [u16; 8]), bytes: Seq<u8>) -> bool {
    let length = pseudo_length(bytes.len());
    &&& packet_type(bytes) == Ok::<u8, Fault>(128)
    &&& packet_code(bytes) == Ok::<u8, Fault>(0)
    &&& identifier(Family::V6, bytes) == Ok::<u16, Fault>(pkt.0)
    &&& sequence(Family::V6, bytes) == Ok::<u16, Fault>(pkt.1)
    &&& packet_checksum(bytes) == Ok::<u16, Fault>(
        spec_checksum_v6(with_checksum(bytes, 0), net.0, net.1, length),
    )
    &&& fold(data_sum(bytes) + segments_sum(net.0) + segments_sum(net.1) + length as nat + 58)
        == 0xFFFF
    &&& spec_checksum_v6(bytes, net.0, net.1, length) == 0
}

/// Whether `bytes` are an echo request from `net.0` to `net.1` with
/// identifier `pkt.0` and sequence number `pkt.1` that is fit to send.
/// Between addresses of two families there is no such request.
pub open spec fn is_request(net: (IpAddress, IpAddress), pkt: (u16, u16), bytes: Seq<u8>) -> bool {
    match net {
        (IpAddress::V4(_), IpAddress::V4(_)) => is_request_v4(pkt, bytes),
        (IpAddress::V6(src), IpAddress::V6(dst)) => is_request_v6(pkt, (src, dst), bytes),
        _ => false,
    }
}

/// Whether writing an IPv4 echo request with `payload` into a buffer that
/// held `before` left `after` in it and returned `built`.
pub open spec fn issued_v4(
    pkt: (u16, u16),
    payload: Seq<u8>,
    before: Seq<u8>,
    after: Seq<u8>,
    built: Result<EkkoPacket, EkkoError>,
) -> bool {
    &&& after == request_v4(before, pkt, payload)
    &&& match request_fault(Family::V4, before.len(), payload.len()) {
        None => built matches Ok(packet) && packet.spec_family() == Family::V4 && packet.bytes()
            == after,
        Some(fault) => built matches Err(error) && error.reports(fault),
    }
}

/// Whether writing an IPv6 echo request between the addresses with segments
/// `net.0` and `net.1`, with `payload`, into a buffer that held `before` left
/// `after` in it and returned `built`.
pub open spec fn issued_v6(
    pkt: (u16, u16),
    net: ([u16; 8], [u16; 8]),
    payload: Seq<u8>,
    before: Seq<u8>,
    after: Seq<u8>,
    built: Result<EkkoPacket, EkkoError>,
) -> bool {
    &&& after == request_v6(before, pkt, net, payload)
    &&& match request_fault(Family::V6, before.len(), payload.len()) {
        None => built matches Ok(packet) && packet.spec_family() == Family::V6 && packet.bytes()
            == after,
        Some(fault) => built matches Err(error) && error.reports(fault),
    }
}

/// Whether writing an echo request from `net.0` to `net.1` with `payload`
/// into a buffer that held `before` left `after` in it and returned `built`.
/// Between addresses of two families nothing is written and the mismatch is
/// the error.
pub open spec fn issued(
    net: (IpAddress, IpAddress),
    pkt: (u16, u16),
    payload: Seq<u8>,
    before: Seq<u8>,
    after: Seq<u8>,
    built: Result<EkkoPacket, EkkoError>,
) -> bool {
    match net {
        (IpAddress::V4(_), IpAddress::V4(_)) => issued_v4(pkt, payload, before, after, built),
        (IpAddress::V6(src), IpAddress::V6(dst)) => issued_v6(
            pkt,
            (src, dst),
            payload,
            before,
            after,
            built,
        ),
        _ => after == before && built == Err::<EkkoPacket, EkkoError>(
            EkkoError::RequestIpMismatch { src: net.0, dst: net.1 },
        ),
    }
}

/// The number of filler bytes behind the header of an echo request.
pub open spec fn filler_length(family: Family) -> nat {
    match family {
        Family::V4 => 36,
        Family::V6 => 16,
    }
}

/// Whether the result `got` is what `expected` asks for: the same value, or
/// an error that reports the expected fault.
pub open spec fn conforms<T>(got: Result<T, EkkoError>, expected: Result<T, Fault>) -> bool {
    match expected {
        Ok(value) => got == Ok::<T, EkkoError>(value),
        Err(fault) => got matches Err(error) && error.reports(fault),
    }
}

/// Puts a fault into words.
pub fn report<T>(outcome: Result<T, Fault>) -> (reported: Result<T, EkkoError>)
    ensures
        conforms(reported, outcome),
{
    match outcome {
        Ok(value) => Ok(value),
        Err(fault) => Err(EkkoError::of(fault)),
    }
}

/// Reads the byte at offset `at`.
pub(crate) fn byte_at(data: &[u8], at: usize, field: ReadField) -> (byte: Result<u8, Fault>)
    ensures
        byte == read_u8_at(data@, at as int, field),
{
    if at < data.len() {
        Ok(data[at])
    } else {
        Err(Fault::Read(field))
    }
}

/// Reads the big-endian 16-bit value at offset `at`.
fn u16_at(data: &[u8], at: usize, field: ReadField) -> (value: Result<u16, Fault>)
    ensures
        value == read_u16_at(data@, at as int, field),
{
    if at <= data.len() && data.len() - at >= 2 {
        Ok(read_u16_be(slice_subrange(data, at, at + 2)))
    } else {
        Err(Fault::Read(field))
    }
}

fn has_originator(family: Family, kind: u8) -> (embeds: bool)
    ensures
        embeds == embeds_originator(family, kind),
{
    match family {
        Family::V4 => kind == 3 || kind == 4 || kind == 5 || kind == 11 || kind == 12,
        Family::V6 => kind == 1 || kind == 2 || kind == 3 || kind == 4,
    }
}

fn echoes(family: Family, kind: u8) -> (echo: bool)
    ensures
        echo == is_echo(family, kind),
{
    match family {
        Family::V4 => kind == 8 || kind == 0,
        Family::V6 => kind == 128 || kind == 129,
    }
}

/// The length in bytes that the first byte of an IPv4 header declares.
pub fn header_length(first: u8) -> (octets: usize)
    ensures
        octets == header_octets(first),
        octets <= 60,
{
    assert(first & 0x0F == first % 16) by (bit_vector);
    ((first & 0x0F) as usize) * 4
}

/// The echo request that an error message embeds.
pub(crate) fn embedded<'a>(family: Family, data: &'a [u8]) -> (inner: Result<&'a [u8], Fault>)
    ensures
        match inner {
            Ok(slice) => originator(family, data@) == Ok::<Seq<u8>, Fault>(slice@),
            Err(fault) => originator(family, data@) == Err::<Seq<u8>, Fault>(fault),
        },
{
    let kind: u8 = match byte_at(data, 0, ReadField::Type) {
        Ok(kind) => kind,
        Err(fault) => { return Err(fault); },
    };
    if !has_originator(family, kind) {
        return Err(Fault::MissingOriginator(kind));
    }
    let offset: usize = match family {
        Family::V6 => ORIGINATOR_OFFSET_V6,
        Family::V4 => match byte_at(data, 8, ReadField::HeaderSize) {
            Ok(first) => HEADER_LENGTH + header_length(first),
            Err(fault) => { return Err(fault); },
        },
    };
    if offset <= data.len() {
        Ok(slice_subrange(data, offset, data.len()))
    } else {
        Err(Fault::Read(ReadField::Originator))
    }
}

/// Strips what precedes the ICMP message in a received datagram.
pub(crate) fn unframe<'a>(family: Family, datagram: &'a [u8]) -> (message: Result<
    &'a [u8],
    Fault,
>)
    ensures
        match message {
            Ok(slice) => icmp_message(family, datagram@) == Ok::<Seq<u8>, Fault>(slice@),
            Err(fault) => icmp_message(family, datagram@) == Err::<Seq<u8>, Fault>(fault),
        },
{
    match family {
        Family::V6 => Ok(datagram),
        Family::V4 => {
            let first: u8 = match byte_at(datagram, 0, ReadField::HeaderSize) {
                Ok(first) => first,
                Err(fault) => { return Err(fault); },
            };
            let offset: usize = header_length(first);
            if offset <= datagram.len() {
                Ok(slice_subrange(datagram, offset, datagram.len()))
            } else {
                Err(Fault::Read(ReadField::Header))
            }
        },
    }
}

/// Reads the 16-bit header field at offset `at` of the echo message that
/// `data` is or embeds, stepping from each error message to the message it
/// embeds until an echo message is reached.
pub(crate) fn resolve<'a>(
    family: Family,
    data: &'a [u8],
    at: usize,
    field: ReadField,
) -> (value: Result<u16, Fault>)
    ensures
        value == echo_field(family, data@, at as int, field),
{
    let mut current: &[u8] = data;
    loop
        invariant
            echo_field(family, current@, at as int, field) == echo_field(
                family,
                data@,
                at as int,
                field,
            ),
        decreases current@.len(),
    {
        let kind: u8 = match byte_at(current, 0, ReadField::Type) {
            Ok(kind) => kind,
            Err(fault) => { return Err(fault); },
        };
        if echoes(family, kind) {
            return u16_at(current, at, field);
        }
        match embedded(family, current) {
            Ok(inner) => {
                current = inner;
            },
            Err(fault) => { return Err(fault); },
        }
    }
}

/// Writes header and payload of an echo request over the start of `buf`, as
/// far as there is room.
fn write_image(
    buf: &mut [u8],
    family: Family,
    pkt: (u16, u16),
    payload: &[u8],
) -> (outcome: Result<(), Fault>)
    ensures
        final(buf)@ == overlay(old(buf)@, request_image(family, pkt, payload@)),
        outcome == (match request_fault(family, old(buf)@.len(), payload@.len()) {
            None => Ok::<(), Fault>(()),
            Some(fault) => Err::<(), Fault>(fault),
        }),
{
    let ghost before = buf@;
    let ghost image = request_image(family, pkt, payload@);
    let kind: u8 = match family {
        Family::V4 => 8,
        Family::V6 => 128,
    };
    let identifier: [u8; 2] = write_u16_be(pkt.0);
    let sequence: [u8; 2] = write_u16_be(pkt.1);
    let header: [u8; 8] = [
        kind,
        0,
        0,
        0,
        identifier[0],
        identifier[1],
        sequence[0],
        sequence[1],
    ];
    let room: usize = buf.len();
    let mut at: usize = 0;
    while at < room && at < HEADER_LENGTH
        invariant
            buf@.len() == room,
            before.len() == room,
            at <= 8,
            at <= room,
            image == request_image(family, pkt, payload@),
            forall|i: int| 0 <= i < 8 ==> header@[i] == image[i],
            forall|i: int| 0 <= i < at ==> buf@[i] == image[i],
            forall|i: int| at <= i < room ==> buf@[i] == before[i],
        decreases room - at,
    {
        buf[at] = header[at];
        at = at + 1;
    }
    while at < room && at - HEADER_LENGTH < payload.len()
        invariant
            buf@.len() == room,
            before.len() == room,
            at <= room,
            at >= 8 || at == room,
            at <= 8 + payload@.len(),
            image == request_image(family, pkt, payload@),
            forall|i: int| 0 <= i < at ==> buf@[i] == image[i],
            forall|i: int| at <= i < room ==> buf@[i] == before[i],
        decreases room - at,
    {
        buf[at] = payload[at - HEADER_LENGTH];
        at = at + 1;
    }
    assert(buf@ =~= overlay(before, image));
    if room < 1 {
        Err(Fault::Write(family, WriteField::Type))
    } else if room < 2 {
        Err(Fault::Write(family, WriteField::Code))
    } else if room < 4 {
        Err(Fault::Write(family, WriteField::ChecksumPlaceholder))
    } else if room < 6 {
        Err(Fault::Write(family, WriteField::Identifier))
    } else if room < 8 {
        Err(Fault::Write(family, WriteField::Sequence))
    } else if room - HEADER_LENGTH < payload.len() {
        Err(Fault::Write(family, WriteField::Payload))
    } else {
        Ok(())
    }
}

/// Stores `value` big-endian in the checksum field of `buf`.
fn patch_checksum(buf: &mut [u8], value: u16)
    requires
        old(buf)@.len() >= 4,
    ensures
        final(buf)@ == with_checksum(old(buf)@, value),
{
    let bytes: [u8; 2] = write_u16_be(value);
    buf[2] = bytes[0];
    buf[3] = bytes[1];
}

/// The upper-layer length that the pseudo-header of a request of `len` bytes
/// declares.
fn upper_layer_length(len: usize) -> (length: u32)
    ensures
        length == pseudo_length(len as nat),
{
    ((len as u64) % 0x1_0000_0000) as u32
}

/// Writes an IPv4 echo request with the given payload into `buf`.
fn fill_ipv4(buf: &mut [u8], pkt: (u16, u16), payload: &[u8]) -> (outcome: Result<(), Fault>)
    ensures
        final(buf)@ == request_v4(old(buf)@, pkt, payload@),
        outcome == (match request_fault(Family::V4, old(buf)@.len(), payload@.len()) {
            None => Ok::<(), Fault>(()),
            Some(fault) => Err::<(), Fault>(fault),
        }),
        outcome is Ok ==> is_request_v4(pkt, final(buf)@),
{
    proof {
        if old(buf)@.len() >= 8 + payload@.len() {
            lemma_request_v4_round_trip(old(buf)@, pkt, payload@);
        }
    }
    match write_image(buf, Family::V4, pkt, payload) {
        Ok(()) => {
            let value: u16 = checksum_v4(buf);
            patch_checksum(buf, value);
            Ok(())
        },
        Err(fault) => Err(fault),
    }
}

/// Writes an IPv6 echo request with the given payload into `buf`.
fn fill_ipv6(
    buf: &mut [u8],
    pkt: (u16, u16),
    net: ([u16; 8], [u16; 8]),
    payload: &[u8],
) -> (outcome: Result<(), Fault>)
    ensures
        final(buf)@ == request_v6(old(buf)@, pkt, net, payload@),
        outcome == (match request_fault(Family::V6, old(buf)@.len(), payload@.len()) {
            None => Ok::<(), Fault>(()),
            Some(fault) => Err::<(), Fault>(fault),
        }),
        outcome is Ok ==> is_request_v6(pkt, net, final(buf)@),
{
    proof {
        if old(buf)@.len() >= 8 + payload@.len() {
            lemma_request_v6_round_trip(old(buf)@, pkt, net, payload@);
        }
    }
    match write_image(buf, Family::V6, pkt, payload) {
        Ok(()) => {
            let length: u32 = upper_layer_length(buf.len());
            let value: u16 = checksum_v6(buf, net, length);
            patch_checksum(buf, value);
            Ok(())
        },
        Err(fault) => Err(fault),
    }
}

impl<'a> EkkoPacket<'a> {
    /// Builds an echo request from `net.0` to `net.1` in `buf`, with
    /// identifier `pkt.0`, sequence number `pkt.1` and a filler of random
    /// bytes: 36 for IPv4, 16 for IPv6. What `buf` holds behind the request
    /// stays and is part of the packet; the checksum covers all of `buf`.
    ///
    /// Fails, with nothing written, if the two addresses are of different
    /// families; and with as much written as fits if `buf` is too short.
    /// What it returns is fit to send: it decodes to the pair, and its
    /// checksum passes the self-check, for IPv6 with the length of `buf` as
    /// the upper-layer length.
    pub fn new(buf: &'a mut [u8], pkt: (u16, u16), net: (IpAddress, IpAddress)) -> (built: Result<
        EkkoPacket<'a>,
        EkkoError,
    >)
        ensures
            exists|filler: Seq<u8>|
                filler.len() == filler_length(net.0.spec_family()) && #[trigger] issued(
                    net,
                    pkt,
                    filler,
                    old(buf)@,
                    final(buf)@,
                    built,
                ),
            built matches Ok(packet) ==> is_request(net, pkt, packet.bytes()),
    {
        let ghost before = buf@;
        match net {
            (IpAddress::V4(_), IpAddress::V4(_)) => {
                let built = EkkoPacket::new_ipv4(buf, pkt);
                assert forall|filler: Seq<u8>, after: Seq<u8>| #[trigger]
                    issued_v4(pkt, filler, before, after, built) implies issued(
                    net,
                    pkt,
                    filler,
                    before,
                    after,
                    built,
                ) by {}
                built
            },
            (IpAddress::V6(src), IpAddress::V6(dst)) => {
                let built = EkkoPacket::new_ipv6(buf, pkt, (src, dst));
                assert forall|filler: Seq<u8>, after: Seq<u8>| #[trigger]
                    issued_v6(pkt, (src, dst), filler, before, after, built) implies issued(
                    net,
                    pkt,
                    filler,
                    before,
                    after,
                    built,
                ) by {}
                built
            },
            (src, dst) => {
                let built = Err(EkkoError::RequestIpMismatch { src, dst });
                proof {
                    let filler = Seq::new(filler_length(net.0.spec_family()), |i: int| 0u8);
                    assert(issued(net, pkt, filler, before, buf@, built));
                }
                built
            },
        }
    }

    /// Builds an IPv4 echo request with 36 random filler bytes.
    fn new_ipv4(buf: &'a mut [u8], pkt: (u16, u16)) -> (built: Result<EkkoPacket<'a>, EkkoError>)
        ensures
            exists|filler: Seq<u8>|
                filler.len() == 36 && #[trigger] issued_v4(
                    pkt,
                    filler,
                    old(buf)@,
                    final(buf)@,
                    built,
                ),
            built matches Ok(packet) ==> is_request_v4(pkt, packet.bytes()),
    {
        let filler: Vec<u8> = random_bytes(FILLER_LENGTH_V4);
        EkkoPacket::with_payload_v4(buf, pkt, filler.as_slice())
    }

    /// Builds an IPv6 echo request with 16 random filler bytes.
    fn new_ipv6(buf: &'a mut [u8], pkt: (u16, u16), net: ([u16; 8], [u16; 8])) -> (built: Result<
        EkkoPacket<'a>,
        EkkoError,
    >)
        ensures
            exists|filler: Seq<u8>|
                filler.len() == 16 && #[trigger] issued_v6(
                    pkt,
                    net,
                    filler,
                    old(buf)@,
                    final(buf)@,
                    built,
                ),
            built matches Ok(packet) ==> is_request_v6(pkt, net, packet.bytes()),
    {
        let filler: Vec<u8> = random_bytes(FILLER_LENGTH_V6);
        EkkoPacket::with_payload_v6(buf, pkt, net, filler.as_slice())
    }

    /// Builds an IPv4 echo request with the given payload.
    fn with_payload_v4(buf: &'a mut [u8], pkt: (u16, u16), payload: &[u8]) -> (built: Result<
        EkkoPacket<'a>,
        EkkoError,
    >)
        ensures
            issued_v4(pkt, payload@, old(buf)@, final(buf)@, built),
            built matches Ok(packet) ==> is_request_v4(pkt, packet.bytes()),
    {
        match fill_ipv4(buf, pkt, payload) {
            Ok(()) => Ok(EkkoPacket::V4(buf)),
            Err(fault) => Err(EkkoError::of(fault)),
        }
    }

    /// Builds an IPv6 echo request with the given payload.
    fn with_payload_v6(
        buf: &'a mut [u8],
        pkt: (u16, u16),
        net: ([u16; 8], [u16; 8]),
        payload: &[u8],
    ) -> (built: Result<EkkoPacket<'a>, EkkoError>)
        ensures
            issued_v6(pkt, net, payload@, old(buf)@, final(buf)@, built),
            built matches Ok(packet) ==> is_request_v6(pkt, net, packet.bytes()),
    {
        match fill_ipv6(buf, pkt, net, payload) {
            Ok(()) => Ok(EkkoPacket::V6(buf)),
            Err(fault) => Err(EkkoError::of(fault)),
        }
    }

    /// Builds an echo request as `new` does, with `payload` in place of the
    /// random filler.
    pub fn with_payload(
        buf: &'a mut [u8],
        pkt: (u16, u16),
        net: (IpAddress, IpAddress),
        payload: &[u8],
    ) -> (built: Result<EkkoPacket<'a>, EkkoError>)
        ensures
            issued(net, pkt, payload@, old(buf)@, final(buf)@, built),
            built matches Ok(packet) ==> is_request(net, pkt, packet.bytes()),
    {
        match net {
            (IpAddress::V4(_), IpAddress::V4(_)) => EkkoPacket::with_payload_v4(buf, pkt, payload),
            (IpAddress::V6(src), IpAddress::V6(dst)) => EkkoPacket::with_payload_v6(
                buf,
                pkt,
                (src, dst),
                payload,
            ),
            (src, dst) => Err(EkkoError::RequestIpMismatch { src, dst }),
        }
    }

    /// The bytes of the message.
    pub open spec fn bytes(&self) -> Seq<u8> {
        match *self {
            EkkoPacket::V4(buf) => buf@,
            EkkoPacket::V6(buf) => buf@,
        }
    }

    /// The address family of the message.
    pub open spec fn spec_family(&self) -> Family {
        match *self {
            EkkoPacket::V4(_) => Family::V4,
            EkkoPacket::V6(_) => Family::V6,
        }
    }

    /// The address family of the message.
    #[verifier::when_used_as_spec(spec_family)]
    pub fn family(&self) -> (family: Family)
        ensures
            family == self.spec_family(),
    {
        match self {
            EkkoPacket::V4(_) => Family::V4,
            EkkoPacket::V6(_) => Family::V6,
        }
    }

    /// A view of `buf` as a message of `family`.
    pub fn of(family: Family, buf: &'a [u8]) -> (packet: EkkoPacket<'a>)
        ensures
            packet.spec_family() == family,
            packet.bytes() == buf@,
    {
        match family {
            Family::V4 => EkkoPacket::V4(buf),
            Family::V6 => EkkoPacket::V6(buf),
        }
    }

    /// The ICMP message in a datagram that a raw socket of `family`
    /// delivered.
    pub fn from_datagram(family: Family, datagram: &'a [u8]) -> (packet: Result<
        EkkoPacket<'a>,
        EkkoError,
    >)
        ensures
            match icmp_message(family, datagram@) {
                Ok(bytes) => packet matches Ok(message) && message.spec_family() == family
                    && message.bytes() == bytes,
                Err(fault) => packet matches Err(error) && error.reports(fault),
            },
    {
        match unframe(family, datagram) {
            Ok(slice) => Ok(EkkoPacket::of(family, slice)),
            Err(fault) => Err(EkkoError::of(fault)),
        }
    }

    /// The bytes of the message.
    pub fn as_slice(&self) -> (slice: &'a [u8])
        ensures
            slice@ == self.bytes(),
    {
        match self {
            Self::V4(buf) | Self::V6(buf) => buf,
        }
    }

    /// Reads the ICMP type, at offset 0.
    pub fn get_type(&self) -> (kind: Result<u8, EkkoError>)
        ensures
            conforms(kind, packet_type(self.bytes())),
    {
        report(byte_at(self.as_slice(), 0, ReadField::Type))
    }

    /// Reads the ICMP code, at offset 1.
    pub fn get_code(&self) -> (code: Result<u8, EkkoError>)
        ensures
            conforms(code, packet_code(self.bytes())),
    {
        report(byte_at(self.as_slice(), 1, ReadField::Code))
    }

    /// Reads the checksum field, at offset 2.
    pub fn get_checksum(&self) -> (checksum: Result<u16, EkkoError>)
        ensures
            conforms(checksum, packet_checksum(self.bytes())),
    {
        report(u16_at(self.as_slice(), 2, ReadField::Checksum))
    }

    /// Reads the identifier of the echo request that this message answers:
    /// at offset 4 of an echo request or reply, and of the embedded request
    /// of an error message.
    pub fn get_identifier(&self) -> (value: Result<u16, EkkoError>)
        ensures
            conforms(value, identifier(self.spec_family(), self.bytes())),
    {
        report(resolve(self.family(), self.as_slice(), 4, ReadField::Identifier))
    }

    /// Reads the sequence number of the echo request that this message
    /// answers: at offset 6 of an echo request or reply, and of the embedded
    /// request of an error message.
    pub fn get_sequence(&self) -> (value: Result<u16, EkkoError>)
        ensures
            conforms(value, sequence(self.spec_family(), self.bytes())),
    {
        report(resolve(self.family(), self.as_slice(), 6, ReadField::Sequence))
    }

    /// Locates the echo request that this error message embeds.
    pub fn get_originator(&self) -> (inner: Result<EkkoPacket<'a>, EkkoError>)
        ensures
            match originator(self.spec_family(), self.bytes()) {
                Ok(bytes) => inner matches Ok(packet) && packet.spec_family()
                    == self.spec_family() && packet.bytes() == bytes,
                Err(fault) => inner matches Err(error) && error.reports(fault),
            },
    {
        match embedded(self.family(), self.as_slice()) {
            Ok(slice) => Ok(EkkoPacket::of(self.family(), slice)),
            Err(fault) => Err(EkkoError::of(fault)),
        }
    }

    /// Decodes an ICMPv4 redirect.
    pub fn get_redirect(&self) -> (detail: Result<Redirect, EkkoError>)
        ensures
            conforms(detail, redirect_of(self.spec_family(), self.bytes())),
    {
        report(decode_redirect(self.family(), self.as_slice()))
    }

    /// Decodes a destination-unreachable message.
    pub fn get_unreachable(&self) -> (detail: Result<Unreachable, EkkoError>)
        ensures
            conforms(detail, unreachable_of(self.spec_family(), self.bytes())),
    {
        report(decode_unreachable(self.family(), self.as_slice()))
    }
}

/// Decodes an ICMPv4 redirect.
pub(crate) fn decode_redirect(family: Family, data: &[u8]) -> (detail: Result<Redirect, Fault>)
    ensures
        detail == redirect_of(family, data@),
{
    let kind: u8 = match byte_at(data, 0, ReadField::Type) {
        Ok(kind) => kind,
        Err(fault) => { return Err(fault); },
    };
    match family {
        Family::V6 => Err(Fault::NotRedirect(family)),
        Family::V4 => {
            if kind != 5 {
                return Err(Fault::NotRedirect(family));
            }
            if data.len() < 8 {
                return Err(Fault::Read(ReadField::Gateway));
            }
            let gateway: [u8; 4] = [data[4], data[5], data[6], data[7]];
            assert(gateway =~= [data@[4], data@[5], data@[6], data@[7]]);
            Ok(
                match data[1] {
                    0 => Redirect::RedirectDatagramsForNetwork(gateway),
                    1 => Redirect::RedirectDatagramsForHost(gateway),
                    2 => Redirect::RedirectDatagramsForTypeServiceNetwork(gateway),
                    3 => Redirect::RedirectDatagramsForTypeServiceHost(gateway),
                    code => Redirect::Unexpected(code),
                },
            )
        },
    }
}

/// Decodes a destination-unreachable message.
pub(crate) fn decode_unreachable(family: Family, data: &[u8]) -> (detail: Result<
    Unreachable,
    Fault,
>)
    ensures
        detail == unreachable_of(family, data@),
{
    let kind: u8 = match byte_at(data, 0, ReadField::Type) {
        Ok(kind) => kind,
        Err(fault) => { return Err(fault); },
    };
    match family {
        Family::V4 => {
            if kind != 3 {
                return Err(Fault::NotUnreachable(family));
            }
            let mtu: u16 = match u16_at(data, 6, ReadField::NextHopMtu) {
                Ok(mtu) => mtu,
                Err(fault) => { return Err(fault); },
            };
            Ok(
                Unreachable::V4(
                    match data[1] {
                        0 => UnreachableCodeV4::DestinationNetworkUnreachable,
                        1 => UnreachableCodeV4::DestinationHostUnreachable,
                        2 => UnreachableCodeV4::DestinationProtocolUnreachable,
                        3 => UnreachableCodeV4::DestinationPortUnreachable,
                        4 => UnreachableCodeV4::FragmentationRequired(mtu),
                        5 => UnreachableCodeV4::SourceRouteFailed,
                        6 => UnreachableCodeV4::DestinationNetworkUnknown,
                        7 => UnreachableCodeV4::DestinationHostUnknown,
                        8 => UnreachableCodeV4::SourceHostIsolated,
                        9 => UnreachableCodeV4::NetworkAdministrativelyProhibited,
                        10 => UnreachableCodeV4::HostAdministrativelyProhibited,
                        11 => UnreachableCodeV4::NetworkUnreachable,
                        12 => UnreachableCodeV4::HostUnreachable,
                        13 => UnreachableCodeV4::CommunicationAdministrativelyProhibited,
                        14 => UnreachableCodeV4::HostPrecedenceViolation,
                        15 => UnreachableCodeV4::PrecedenceCutoff,
                        code => UnreachableCodeV4::Unexpected(code),
                    },
                ),
            )
        },
        Family::V6 => {
            if kind != 1 {
                return Err(Fault::NotUnreachable(family));
            }
            let code: u8 = match byte_at(data, 1, ReadField::Code) {
                Ok(code) => code,
                Err(fault) => { return Err(fault); },
            };
            Ok(
                Unreachable::V6(
                    match code {
                        0 => UnreachableCodeV6::NoRouteToDestination,
                        1 => UnreachableCodeV6::CommunicationWithDestinationAdministrativelyProhibited,
                        2 => UnreachableCodeV6::BeyondScopeOfSourceAddress,
                        3 => UnreachableCodeV6::AddressUnreachable,
                        4 => UnreachableCodeV6::PortUnreachable,
                        5 => UnreachableCodeV6::SourceAddressFailedIngressEgressPolicy,
                        6 => UnreachableCodeV6::RejectRouteToDestination,
                        7 => UnreachableCodeV6::ErrorInSourceRoutingHeader,
                        code => UnreachableCodeV6::Unexpected(code),
                    },
                ),
            )
        },
    }
}

/// Round trip of the codec for IPv4: an echo request written into a buffer
/// that has room for it decodes to the identifier and sequence number it
/// was built from, has the type and code of an echo request, and passes the
/// checksum self-check.
pub proof fn lemma_request_v4_round_trip(before: Seq<u8>, pkt: (u16, u16), payload: Seq<u8>)
    requires
        before.len() >= 8 + payload.len(),
    ensures
        request_v4(before, pkt, payload).len() == before.len(),
        is_request_v4(pkt, request_v4(before, pkt, payload)),
{
    let written = overlay(before, request_image(Family::V4, pkt, payload));
    let value: u16 = spec_checksum_v4(written);
    let bytes = request_v4(before, pkt, payload);
    assert(with_checksum(written, 0) =~= written);
    assert(with_checksum(bytes, 0) =~= written);
    lemma_checksum_v4_verifies(written);
    lemma_data_sum_patched(written, value);
    assert(word_at(written, 1) == 0);
    lemma_complement_cancels(data_sum(written));
}

/// Round trip of the codec for IPv6: as for IPv4, with the type of an
/// ICMPv6 echo request and the checksum that includes the pseudo-header.
pub proof fn lemma_request_v6_round_trip(
    before: Seq<u8>,
    pkt: (u16, u16),
    net: ([u16; 8], [u16; 8]),
    payload: Seq<u8>,
)
    requires
        before.len() >= 8 + payload.len(),
    ensures
        request_v6(before, pkt, net, payload).len() == before.len(),
        is_request_v6(pkt, net, request_v6(before, pkt, net, payload)),
{
    let written = overlay(before, request_image(Family::V6, pkt, payload));
    let length: u32 = pseudo_length(written.len());
    let value: u16 = spec_checksum_v6(written, net.0, net.1, length);
    let pseudo: nat = segments_sum(net.0) + segments_sum(net.1) + length as nat + 58;
    let bytes = request_v6(before, pkt, net, payload);
    assert(with_checksum(written, 0) =~= written);
    assert(with_checksum(bytes, 0) =~= written);
    lemma_checksum_v6_verifies(written, net.0, net.1, length);
    lemma_data_sum_patched(written, value);
    assert(word_at(written, 1) == 0);
    lemma_complement_cancels(data_sum(written) + pseudo);
}

/// The builder's promise: whatever a builder left in the buffer when it
/// returned a packet is an echo request that is fit to send, and is what
/// the packet holds.
pub proof fn lemma_issued_is_request(
    net: (IpAddress, IpAddress),
    pkt: (u16, u16),
    payload: Seq<u8>,
    before: Seq<u8>,
    after: Seq<u8>,
    built: Result<EkkoPacket, EkkoError>,
)
    requires
        issued(net, pkt, payload, before, after, built),
        built is Ok,
    ensures
        net.0.spec_family() == net.1.spec_family(),
        before.len() >= 8 + payload.len(),
        after.len() == before.len(),
        built->Ok_0.bytes() == after,
        is_request(net, pkt, after),
{
    match net {
        (IpAddress::V4(_), IpAddress::V4(_)) => {
            lemma_request_v4_round_trip(before, pkt, payload);
        },
        (IpAddress::V6(src), IpAddress::V6(dst)) => {
            lemma_request_v6_round_trip(before, pkt, (src, dst), payload);
        },
        _ => {},
    }
}

/// Round trip through an ICMPv4 error message: where the eight bytes of an
/// error header of a type that embeds its cause are followed by an IPv4
/// header as long as its first byte declares, and that by a request, the
/// request is found again, and with it its identifier and sequence number.
/// A header of twenty bytes without options, whose first byte is `0x45`, is
/// one such header.
pub proof fn lemma_originator_v4_round_trip(error: Seq<u8>, header: Seq<u8>, request: Seq<u8>)
    requires
        error.len() == 8,
        embeds_originator(Family::V4, error[0]),
        header.len() >= 1,
        header.len() == header_octets(header[0]),
    ensures
        originator(Family::V4, error + header + request) == Ok::<Seq<u8>, Fault>(request),
        identifier(Family::V4, error + header + request) == identifier(Family::V4, request),
        sequence(Family::V4, error + header + request) == sequence(Family::V4, request),
{
    let message = error + header + request;
    assert(message[0] == error[0]);
    assert(message[8] == header[0]);
    assert(message.skip(8 + header.len() as int) =~= request);
}

/// Round trip through an ICMPv6 error message: where the eight bytes of an
/// error header of a type that embeds its cause are followed by the forty
/// bytes of an IPv6 header, and those by a request, the request is found
/// again, and with it its identifier and sequence number.
pub proof fn lemma_originator_v6_round_trip(error: Seq<u8>, header: Seq<u8>, request: Seq<u8>)
    requires
        error.len() == 8,
        embeds_originator(Family::V6, error[0]),
        header.len() == 40,
    ensures
        originator(Family::V6, error + header + request) == Ok::<Seq<u8>, Fault>(request),
        identifier(Family::V6, error + header + request) == identifier(Family::V6, request),
        sequence(Family::V6, error + header + request) == sequence(Family::V6, request),
{
    let message = error + header + request;
    assert(message[0] == error[0]);
    assert(message.skip(48) =~= request);
}

} // verus!
