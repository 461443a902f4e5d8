//! Network addresses as plain values: an IP address is the number that its
//! bytes spell in network order, an endpoint an address with a port.

use vstd::prelude::*;

verus! {

/// An IPv4 or IPv6 address.
#[derive(Debug, Clone, Copy, PartialEq, Eq, Structural)]
pub enum IpAddress {
    V4(u32),
    V6(u128),
}

/// Where datagrams for a peer go to, or where one came from.
#[derive(Debug, Clone, Copy, PartialEq, Eq, Structural)]
pub struct Endpoint {
    pub ip: IpAddress,
    pub port: u16,
}

/// The IPv6 addresses `::ffff:a.b.c.d` begin at this number.
pub const V4_MAPPED_PREFIX: u128 = 0xffff_0000_0000;

/// The upper 96 bits of an IPv6 address.
pub open spec fn upper_bits(v6: u128) -> int {
    v6 as int / 0x1_0000_0000
}

/// The IPv4 address inside an IPv6 address: the lower 32 bits of an
/// IPv4-mapped address (`::ffff:a.b.c.d`) or of an IPv4-compatible one
/// (`::a.b.c.d`), and none for any other.
pub open spec fn embedded_v4(v6: u128) -> Option<u32> {
    if upper_bits(v6) == 0 || upper_bits(v6) == 0xffff {
        Some((v6 as int % 0x1_0000_0000) as u32)
    } else {
        None
    }
}

/// The IPv4-mapped IPv6 address of an IPv4 address.
pub open spec fn mapped_v6(v4: u32) -> u128 {
    (V4_MAPPED_PREFIX + v4) as u128
}

impl IpAddress {
    /// The address with an embedded IPv4 address taken out of its IPv6 form.
    pub open spec fn unmapped(self) -> IpAddress {
        match self {
            IpAddress::V4(a) => IpAddress::V4(a),
            IpAddress::V6(a) => match embedded_v4(a) {
                Some(v4) => IpAddress::V4(v4),
                None => IpAddress::V6(a),
            },
        }
    }

    /// The address in IPv6 form, an IPv4 address as its IPv4-mapped one.
    pub open spec fn mapped(self) -> IpAddress {
        match self {
            IpAddress::V4(a) => IpAddress::V6(mapped_v6(a)),
            IpAddress::V6(a) => IpAddress::V6(a),
        }
    }

    /// Takes an embedded IPv4 address out of its IPv6 form.
    pub fn to_unmapped(self) -> (ip: IpAddress)
        ensures
            ip == self.unmapped(),
    {
        match self {
            IpAddress::V4(a) => IpAddress::V4(a),
            IpAddress::V6(a) => {
                let upper: u128 = a / 0x1_0000_0000;
                if upper == 0 || upper == 0xffff {
                    let lower: u128 = a % 0x1_0000_0000;
                    IpAddress::V4(lower as u32)
                } else {
                    IpAddress::V6(a)
                }
            },
        }
    }

    /// Puts an IPv4 address into its IPv4-mapped IPv6 form.
    pub fn to_mapped(self) -> (ip: IpAddress)
        ensures
            ip == self.mapped(),
    {
        match self {
            IpAddress::V4(a) => {
                let wide: u128 = a as u128;
                IpAddress::V6(V4_MAPPED_PREFIX + wide)
            },
            IpAddress::V6(a) => IpAddress::V6(a),
        }
    }
}

/// Mapping an IPv4 address into IPv6 and back gives the address again.
pub proof fn lemma_map_then_unmap(v4: u32)
    ensures
        IpAddress::V4(v4).mapped().unmapped() == IpAddress::V4(v4),
{
}

} // verus!
