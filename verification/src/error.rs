//! The errors of the library, and the faults of the codec that they report.

use crate::address::{Family, IpAddress};
use vstd::prelude::*;
use vstd::string::StringExecFns;

verus! {

/// Everything that can go wrong while probing.
///
/// The `Socket..` variants are raised by whoever owns the socket; this crate
/// raises the others. Every text field holds a reason fit for display.
#[derive(Clone, Debug, PartialEq, Eq)]
pub enum EkkoError {
    SocketSendIcmpv4(String),
    SocketSendIcmpv6(String),
    SocketCreateIcmpv4(String),
    SocketCreateIcmpv6(String),
    SocketBindIpv4(String, String),
    SocketBindIpv6(String, String),
    SocketIpMismatch { src: IpAddress, dst: IpAddress },
    SocketReceiveNoIpv4,
    SocketReceiveNoIpv6,
    SocketSetReceiveBufferSize(String),
    SocketSetNonBlocking(bool, String),
    SocketSetReadTimeout(String),
    SocketSetMaxHopsIpv4(String),
    SocketSetMaxHopsIpv6(String),
    SocketSendBufferSize(String),
    RequestIpMismatch { src: IpAddress, dst: IpAddress },
    ResponseReadField(&'static str, String),
    RequestReadField(&'static str, String),
    RequestReadIcmpv4Type(&'static str, String),
    RequestReadIcmpv6Type(&'static str, String),
    RequestWriteIcmpv4Field(&'static str, String),
    RequestWriteIcmpv6Field(&'static str, String),
    RequestWriteIcmpv4Payload(String),
    RequestWriteIcmpv6Payload(String),
}

/// A field of a packet that a read can fall short of.
#[derive(Clone, Copy, Debug, PartialEq, Eq, Structural)]
pub enum ReadField {
    Type,
    Code,
    Checksum,
    Identifier,
    Sequence,
    /// The byte that holds the length of an IPv4 header.
    HeaderSize,
    /// The IPv4 header in front of a received ICMP message.
    Header,
    /// The echo request embedded in an ICMP error message.
    Originator,
    /// The gateway address of a redirect.
    Gateway,
    /// The next-hop MTU of a destination-unreachable message.
    NextHopMtu,
}

/// A part of an echo request that a write can find no room for.
#[derive(Clone, Copy, Debug, PartialEq, Eq, Structural)]
pub enum WriteField {
    Type,
    Code,
    ChecksumPlaceholder,
    Identifier,
    Sequence,
    Payload,
}

/// What the codec can object to, without the wording.
#[derive(Clone, Copy, Debug, PartialEq, Eq, Structural)]
pub enum Fault {
    /// The buffer ends before the field does.
    Read(ReadField),
    /// The buffer has no room for this part of a request of this family.
    Write(Family, WriteField),
    /// A message of this ICMP type embeds no echo request.
    MissingOriginator(u8),
    /// The message is no redirect.
    NotRedirect(Family),
    /// The message is no destination-unreachable message.
    NotUnreachable(Family),
}

impl ReadField {
    /// The name under which an error reports this field.
    pub open spec fn name(self) -> Seq<char> {
        match self {
            ReadField::Type => "type"@,
            ReadField::Code => "code"@,
            ReadField::Checksum => "checksum"@,
            ReadField::Identifier => "identifier"@,
            ReadField::Sequence => "sequence number"@,
            ReadField::HeaderSize => "internet protocol header size"@,
            ReadField::Header => "internet protocol header"@,
            ReadField::Originator => "originator"@,
            ReadField::Gateway => "address octet: 0"@,
            ReadField::NextHopMtu => "problem pointer"@,
        }
    }

    /// The name under which an error reports this field.
    pub fn label(self) -> (label: &'static str)
        ensures
            label@ == self.name(),
    {
        match self {
            ReadField::Type => "type",
            ReadField::Code => "code",
            ReadField::Checksum => "checksum",
            ReadField::Identifier => "identifier",
            ReadField::Sequence => "sequence number",
            ReadField::HeaderSize => "internet protocol header size",
            ReadField::Header => "internet protocol header",
            ReadField::Originator => "originator",
            ReadField::Gateway => "address octet: 0",
            ReadField::NextHopMtu => "problem pointer",
        }
    }
}

impl WriteField {
    /// The name under which an error reports this part. The payload has
    /// an error variant of its own and no name.
    pub open spec fn name(self) -> Seq<char> {
        match self {
            WriteField::Type => "type"@,
            WriteField::Code => "code"@,
            WriteField::ChecksumPlaceholder => "checksum placeholder"@,
            WriteField::Identifier => "identifier"@,
            WriteField::Sequence => "sequence"@,
            WriteField::Payload => "payload"@,
        }
    }

    /// The name under which an error reports this part.
    pub fn label(self) -> (label: &'static str)
        ensures
            label@ == self.name(),
    {
        match self {
            WriteField::Type => "type",
            WriteField::Code => "code",
            WriteField::ChecksumPlaceholder => "checksum placeholder",
            WriteField::Identifier => "identifier",
            WriteField::Sequence => "sequence",
            WriteField::Payload => "payload",
        }
    }
}

/// The text of one decimal digit; of zero for anything above nine.
pub open spec fn digit_text(digit: nat) -> Seq<char> {
    if digit == 1 {
        "1"@
    } else if digit == 2 {
        "2"@
    } else if digit == 3 {
        "3"@
    } else if digit == 4 {
        "4"@
    } else if digit == 5 {
        "5"@
    } else if digit == 6 {
        "6"@
    } else if digit == 7 {
        "7"@
    } else if digit == 8 {
        "8"@
    } else if digit == 9 {
        "9"@
    } else {
        "0"@
    }
}

/// The decimal text of `value`, without leading zeros.
pub open spec fn decimal_text(value: nat) -> Seq<char>
    decreases value,
{
    if value < 10 {
        digit_text(value)
    } else {
        decimal_text(value / 10) + digit_text(value % 10)
    }
}

/// The reason given when a buffer ends before a field that is read.
pub open spec fn read_reason() -> Seq<char> {
    "failed to fill whole buffer"@
}

/// The reason given when a buffer has no room for what is written.
pub open spec fn write_reason() -> Seq<char> {
    "failed to write whole buffer"@
}

/// The reason given when a message of ICMP type `kind` embeds no echo request.
pub open spec fn missing_originator_reason(kind: u8) -> Seq<char> {
    "missing originator for type: "@ + decimal_text(kind as nat)
}

/// The reason given when a message is no redirect.
pub open spec fn not_redirect_reason(family: Family) -> Seq<char> {
    match family {
        Family::V4 => "not redirect response"@,
        Family::V6 => "not a redirect response"@,
    }
}

/// The reason given when a message is no destination-unreachable message.
pub open spec fn not_unreachable_reason() -> Seq<char> {
    "not an unreachable response"@
}

fn digit(value: u8) -> (text: &'static str)
    requires
        value < 10,
    ensures
        text@ == digit_text(value as nat),
{
    match value {
        1 => "1",
        2 => "2",
        3 => "3",
        4 => "4",
        5 => "5",
        6 => "6",
        7 => "7",
        8 => "8",
        9 => "9",
        _ => "0",
    }
}

/// Appends the decimal text of `value` to `text`.
fn append_decimal(text: &mut String, value: u8)
    ensures
        final(text)@ == old(text)@ + decimal_text(value as nat),
{
    reveal_with_fuel(decimal_text, 3);
    if value >= 100 {
        text.append(digit(value / 100));
    }
    if value >= 10 {
        text.append(digit((value / 10) % 10));
    }
    text.append(digit(value % 10));
    assert(final(text)@ =~= old(text)@ + decimal_text(value as nat));
}

impl EkkoError {
    /// Whether this error is the report of `fault`: the variant, the name of
    /// the field and the reason are all fixed by the fault.
    pub open spec fn reports(self, fault: Fault) -> bool {
        match fault {
            Fault::Read(field) => {
                &&& self matches EkkoError::ResponseReadField(name, reason)
                &&& name@ == field.name()
                &&& reason@ == read_reason()
            },
            Fault::Write(Family::V4, WriteField::Payload) => {
                &&& self matches EkkoError::RequestWriteIcmpv4Payload(reason)
                &&& reason@ == write_reason()
            },
            Fault::Write(Family::V6, WriteField::Payload) => {
                &&& self matches EkkoError::RequestWriteIcmpv6Payload(reason)
                &&& reason@ == write_reason()
            },
            Fault::Write(Family::V4, field) => {
                &&& self matches EkkoError::RequestWriteIcmpv4Field(name, reason)
                &&& name@ == field.name()
                &&& reason@ == write_reason()
            },
            Fault::Write(Family::V6, field) => {
                &&& self matches EkkoError::RequestWriteIcmpv6Field(name, reason)
                &&& name@ == field.name()
                &&& reason@ == write_reason()
            },
            Fault::MissingOriginator(kind) => {
                &&& self matches EkkoError::RequestReadField(name, reason)
                &&& name@ == "originator"@
                &&& reason@ == missing_originator_reason(kind)
            },
            Fault::NotRedirect(Family::V4) => {
                &&& self matches EkkoError::RequestReadIcmpv4Type(name, reason)
                &&& name@ == "redirect"@
                &&& reason@ == not_redirect_reason(Family::V4)
            },
            Fault::NotRedirect(Family::V6) => {
                &&& self matches EkkoError::RequestReadIcmpv6Type(name, reason)
                &&& name@ == "redirect"@
                &&& reason@ == not_redirect_reason(Family::V6)
            },
            Fault::NotUnreachable(Family::V4) => {
                &&& self matches EkkoError::RequestReadIcmpv4Type(name, reason)
                &&& name@ == "unreachable"@
                &&& reason@ == not_unreachable_reason()
            },
            Fault::NotUnreachable(Family::V6) => {
                &&& self matches EkkoError::RequestReadIcmpv6Type(name, reason)
                &&& name@ == "unreachable"@
                &&& reason@ == not_unreachable_reason()
            },
        }
    }

    /// The error that reports `fault`.
    pub fn of(fault: Fault) -> (error: EkkoError)
        ensures
            error.reports(fault),
    {
        match fault {
            Fault::Read(field) => EkkoError::ResponseReadField(
                field.label(),
                "failed to fill whole buffer".to_owned(),
            ),
            Fault::Write(Family::V4, WriteField::Payload) => EkkoError::RequestWriteIcmpv4Payload(
                "failed to write whole buffer".to_owned(),
            ),
            Fault::Write(Family::V6, WriteField::Payload) => EkkoError::RequestWriteIcmpv6Payload(
                "failed to write whole buffer".to_owned(),
            ),
            Fault::Write(Family::V4, field) => EkkoError::RequestWriteIcmpv4Field(
                field.label(),
                "failed to write whole buffer".to_owned(),
            ),
            Fault::Write(Family::V6, field) => EkkoError::RequestWriteIcmpv6Field(
                field.label(),
                "failed to write whole buffer".to_owned(),
            ),
            Fault::MissingOriginator(kind) => {
                let mut reason: String = "missing originator for type: ".to_owned();
                append_decimal(&mut reason, kind);
                EkkoError::RequestReadField("originator", reason)
            },
            Fault::NotRedirect(Family::V4) => EkkoError::RequestReadIcmpv4Type(
                "redirect",
                "not redirect response".to_owned(),
            ),
            Fault::NotRedirect(Family::V6) => EkkoError::RequestReadIcmpv6Type(
                "redirect",
                "not a redirect response".to_owned(),
            ),
            Fault::NotUnreachable(Family::V4) => EkkoError::RequestReadIcmpv4Type(
                "unreachable",
                "not an unreachable response".to_owned(),
            ),
            Fault::NotUnreachable(Family::V6) => EkkoError::RequestReadIcmpv6Type(
                "unreachable",
                "not an unreachable response".to_owned(),
            ),
        }
    }
}

} // verus!
