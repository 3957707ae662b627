//! IP addresses and the network form in which a session stores them.

use vstd::prelude::*;

verus! {

/// An IPv4 or IPv6 address, held as its bits in network order.
#[derive(Clone, Copy, Debug, PartialEq, Eq, Hash, Structural)]
pub enum IpAddress {
    V4(u32),
    V6(u128),
}

/// An address together with a prefix length, as a network-address column
/// holds it.
#[derive(Clone, Copy, Debug, PartialEq, Eq, Hash, Structural)]
pub struct IpNetwork {
    pub address: IpAddress,
    pub prefix: u8,
}

/// The 32 bits of the IPv4 address `a.b.c.d`.
pub open spec fn v4_bits(a: u8, b: u8, c: u8, d: u8) -> int {
    a as int * 0x100_0000 + b as int * 0x1_0000 + c as int * 0x100 + d as int
}

impl IpAddress {
    /// Number of bits in an address of this family.
    pub open spec fn width(self) -> u8 {
        match self {
            IpAddress::V4(_) => 32,
            IpAddress::V6(_) => 128,
        }
    }

    /// The IPv4 address `a.b.c.d`.
    pub fn v4(a: u8, b: u8, c: u8, d: u8) -> (address: IpAddress)
        ensures
            address == IpAddress::V4(v4_bits(a, b, c, d) as u32),
            v4_bits(a, b, c, d) <= u32::MAX,
    {
        let high: u32 = a as u32 * 0x100_0000 + b as u32 * 0x1_0000;
        let low: u32 = c as u32 * 0x100 + d as u32;
        IpAddress::V4(high + low)
    }
}

impl IpNetwork {
    /// A network is valid when its prefix is no longer than its address.
    pub open spec fn valid(self) -> bool {
        self.prefix <= self.address.width()
    }

    /// The network that holds `address` alone: its prefix covers every bit.
    pub open spec fn spec_host(address: IpAddress) -> IpNetwork {
        IpNetwork { address, prefix: address.width() }
    }

    /// Converts an address into the single-host network that is stored for it.
    #[verifier::when_used_as_spec(spec_host)]
    pub fn host(address: IpAddress) -> (network: IpNetwork)
        ensures
            network == Self::spec_host(address),
            network.valid(),
    {
        let prefix: u8 = match address {
            IpAddress::V4(_) => 32,
            IpAddress::V6(_) => 128,
        };
        IpNetwork { address, prefix }
    }

    /// The address part of the network.
    pub fn ip(&self) -> (address: IpAddress)
        ensures
            address == self.address,
    {
        self.address
    }
}

} // verus!
