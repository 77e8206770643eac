//! ICMP echo ("ping") and hop-limited path discovery ("trace") for IPv4 and
//! IPv6: the wire codec with its one's-complement checksum, the classifier that
//! turns ICMP type and code fields into structured outcomes, and the decisions
//! that correlate arriving packets with the attempts that caused them.
//!
//! The crate performs no I/O. A caller owns the raw socket and the clock, and
//! hands this crate byte buffers, addresses and clock readings.

pub mod address;
pub mod checksum;
pub mod error;
pub mod packets;
pub mod responses;
pub mod sender;
mod random;
mod wire;

pub use address::{Family, IpAddress};
pub use error::{EkkoError, Fault, ReadField, WriteField};
pub use packets::EkkoPacket;
pub use responses::{
    EkkoData, EkkoResponse, Redirect, Unreachable, UnreachableCodeV4, UnreachableCodeV6,
};
pub use sender::{Arrival, Attempt, EkkoSettings, Engine, Trace};
