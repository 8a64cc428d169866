use vstd::prelude::*;

verus! {

/// An IP address as plain numbers: an IPv4 address as its 32-bit value, an
/// IPv6 address as its 128-bit value (both in network bit order).
#[derive(Clone, Copy, Debug, PartialEq, Eq, Structural)]
pub enum IpAddress {
    V4(u32),
    V6(u128),
}

/// The two DNS address families (A and AAAA).
#[derive(Clone, Copy, Debug, PartialEq, Eq, Structural)]
pub enum AddressFamily {
    Ipv4,
    Ipv6,
}

pub open spec fn family_of_spec(address: IpAddress) -> AddressFamily {
    match address {
        IpAddress::V4(_) => AddressFamily::Ipv4,
        IpAddress::V6(_) => AddressFamily::Ipv6,
    }
}

impl IpAddress {
    /// The family this address belongs to.
    pub fn family(self) -> (r: AddressFamily)
        ensures
            r == family_of_spec(self),
    {
        match self {
            IpAddress::V4(_) => AddressFamily::Ipv4,
            IpAddress::V6(_) => AddressFamily::Ipv6,
        }
    }
}

/// A numeric socket address: an IP address and a port.
#[derive(Clone, Copy, Debug, PartialEq, Eq, Structural)]
pub struct SocketAddress {
    pub ip: IpAddress,
    pub port: u16,
}

impl SocketAddress {
    pub fn new(ip: IpAddress, port: u16) -> (r: Self)
        ensures
            r == (SocketAddress { ip, port }),
    {
        SocketAddress { ip, port }
    }
}

} // verus!
