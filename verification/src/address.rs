//! Addresses as plain values, and the fixed points of the discovery protocol.

use vstd::prelude::*;

verus! {

/// Port on which a listener waits for handshake datagrams.
pub const CONTROL_PORT: u16 = 9943;

/// Largest handshake datagram that a listener reads; a longer one arrives cut to this length.
pub const MAX_HANDSHAKE_PACKET_SIZE_BYTES: usize = 4_000;

/// An IP address: the four octets of a version 4 address in the order they are written,
/// or the 128 bits of a version 6 address, most significant first.
#[derive(Clone, Copy, Debug, PartialEq, Eq, Structural)]
pub enum IpAddress {
    V4(u8, u8, u8, u8),
    V6(u128),
}

/// The multicast group that peers announce themselves to: 224.0.0.123.
pub open spec fn discovery_group() -> IpAddress {
    IpAddress::V4(224, 0, 0, 123)
}

/// The multicast group that peers announce themselves to.
#[verifier::when_used_as_spec(discovery_group)]
pub fn multicast_addr() -> (group: IpAddress)
    ensures
        group == discovery_group(),
{
    IpAddress::V4(224, 0, 0, 123)
}

/// The address a listener binds to: every local version 4 interface, 0.0.0.0.
pub fn local_ip() -> (any: IpAddress)
    ensures
        any == IpAddress::V4(0, 0, 0, 0),
{
    IpAddress::V4(0, 0, 0, 0)
}

impl IpAddress {
    /// Whether this is the discovery group. A version 6 address never is, whatever it maps to.
    pub open spec fn spec_is_discovery_group(&self) -> bool {
        *self == discovery_group()
    }

    /// Whether this is the discovery group.
    #[verifier::when_used_as_spec(spec_is_discovery_group)]
    pub fn is_discovery_group(&self) -> (yes: bool)
        ensures
            yes == self.spec_is_discovery_group(),
    {
        match *self {
            IpAddress::V4(a, b, c, d) => a == 224 && b == 0 && c == 0 && d == 123,
            IpAddress::V6(_) => false,
        }
    }
}

} // verus!
