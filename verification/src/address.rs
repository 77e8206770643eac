//! Address families and addresses as plain values.

use vstd::prelude::*;

verus! {

/// An IP address family.
#[derive(Clone, Copy, Debug, PartialEq, Eq, Structural)]
pub enum Family {
    V4,
    V6,
}

/// An IP address: the four octets of an IPv4 address, or the eight 16-bit
/// segments of an IPv6 address.
#[derive(Clone, Copy, Debug, Eq)]
pub enum IpAddress {
    V4([u8; 4]),
    V6([u16; 8]),
}

impl IpAddress {
    /// The family this address belongs to.
    pub open spec fn spec_family(self) -> Family {
        match self {
            IpAddress::V4(_) => Family::V4,
            IpAddress::V6(_) => Family::V6,
        }
    }

    /// The unspecified address of `family`: `0.0.0.0` or `::`.
    pub open spec fn spec_unspecified(family: Family) -> IpAddress {
        match family {
            Family::V4 => IpAddress::V4([0u8, 0u8, 0u8, 0u8]),
            Family::V6 => IpAddress::V6([0u16, 0u16, 0u16, 0u16, 0u16, 0u16, 0u16, 0u16]),
        }
    }

    /// The unspecified address of `family`: `0.0.0.0` or `::`.
    #[verifier::when_used_as_spec(spec_unspecified)]
    pub fn unspecified(family: Family) -> (address: IpAddress)
        ensures
            address == Self::spec_unspecified(family),
    {
        match family {
            Family::V4 => {
                let octets: [u8; 4] = [0u8, 0u8, 0u8, 0u8];
                IpAddress::V4(octets)
            },
            Family::V6 => {
                let segments: [u16; 8] = [0u16, 0u16, 0u16, 0u16, 0u16, 0u16, 0u16, 0u16];
                IpAddress::V6(segments)
            },
        }
    }

    /// The family this address belongs to.
    #[verifier::when_used_as_spec(spec_family)]
    pub fn family(self) -> (family: Family)
        ensures
            family == self.spec_family(),
    {
        match self {
            IpAddress::V4(_) => Family::V4,
            IpAddress::V6(_) => Family::V6,
        }
    }
}

impl PartialEq for IpAddress {
    /// Two addresses are equal when they are of one family and hold the
    /// same octets or segments.
    fn eq(&self, other: &Self) -> (equal: bool) {
        match (self, other) {
            (IpAddress::V4(a), IpAddress::V4(b)) => {
                let equal: bool = a[0] == b[0] && a[1] == b[1] && a[2] == b[2] && a[3] == b[3];
                assert(equal == (*a =~= *b));
                equal
            },
            (IpAddress::V6(a), IpAddress::V6(b)) => {
                let equal: bool = a[0] == b[0] && a[1] == b[1] && a[2] == b[2] && a[3] == b[3]
                    && a[4] == b[4] && a[5] == b[5] && a[6] == b[6] && a[7] == b[7];
                assert(equal == (*a =~= *b));
                equal
            },
            _ => false,
        }
    }
}

impl vstd::std_specs::cmp::PartialEqSpecImpl for IpAddress {
    open spec fn obeys_eq_spec() -> bool {
        true
    }

    open spec fn eq_spec(&self, other: &Self) -> bool {
        *self == *other
    }
}


} // verus!
