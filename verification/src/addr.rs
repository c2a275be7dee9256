//! IP addresses as plain values.
//!
//! An address is carried as the integer formed from its bytes in network
//! (big-endian) order, so `127.0.0.1` is `0x7f00_0001u32` and `::1` is
//! `1u128`.  Keeping addresses as integers lets every contract state the
//! exact value an operation produces.

use vstd::prelude::*;

verus! {

/// An IPv4 or IPv6 address, as the big-endian integer of its bytes.
#[derive(Clone, Copy, Debug, Hash, PartialEq, Eq, Structural)]
pub enum IpAddr {
    V4(u32),
    V6(u128),
}

impl IpAddr {
    /// True of IPv4 addresses.
    pub open spec fn spec_is_v4(&self) -> bool {
        self is V4
    }

    /// True of IPv6 addresses.
    pub open spec fn spec_is_v6(&self) -> bool {
        self is V6
    }

    #[verifier::when_used_as_spec(spec_is_v4)]
    pub fn is_v4(&self) -> (r: bool)
        ensures
            r == self.spec_is_v4(),
    {
        matches!(self, IpAddr::V4(_))
    }

    #[verifier::when_used_as_spec(spec_is_v6)]
    pub fn is_v6(&self) -> (r: bool)
        ensures
            r == self.spec_is_v6(),
    {
        matches!(self, IpAddr::V6(_))
    }

    /// Builds an IPv4 address from its four dotted-quad octets.
    pub fn v4(a: u8, b: u8, c: u8, d: u8) -> (r: IpAddr)
        ensures
            r == IpAddr::V4(
                (a * 0x100_0000 + b * 0x1_0000 + c * 0x100 + d) as u32,
            ),
    {
        IpAddr::V4(
            (a as u32) * 0x100_0000 + (b as u32) * 0x1_0000 + (c as u32) * 0x100 + (d as u32),
        )
    }

    /// Builds an IPv6 address from its eight colon-separated groups.
    pub fn v6(g: [u16; 8]) -> (r: IpAddr)
        ensures
            r == IpAddr::V6(
                (g@[0] * 0x1_0000_0000_0000_0000_0000_0000_0000
                    + g@[1] * 0x1_0000_0000_0000_0000_0000_0000
                    + g@[2] * 0x1_0000_0000_0000_0000_0000
                    + g@[3] * 0x1_0000_0000_0000_0000
                    + g@[4] * 0x1_0000_0000_0000
                    + g@[5] * 0x1_0000_0000
                    + g@[6] * 0x1_0000
                    + g@[7]) as u128,
            ),
    {
        IpAddr::V6(
            (g[0] as u128) * 0x1_0000_0000_0000_0000_0000_0000_0000
                + (g[1] as u128) * 0x1_0000_0000_0000_0000_0000_0000
                + (g[2] as u128) * 0x1_0000_0000_0000_0000_0000
                + (g[3] as u128) * 0x1_0000_0000_0000_0000
                + (g[4] as u128) * 0x1_0000_0000_0000
                + (g[5] as u128) * 0x1_0000_0000
                + (g[6] as u128) * 0x1_0000
                + (g[7] as u128),
        )
    }

    /// True of addresses in the IPv4 loopback network `127.0.0.0/8` and of
    /// the IPv6 loopback address `::1`.
    pub open spec fn spec_is_loopback(&self) -> bool {
        match self {
            IpAddr::V4(v) => v / 0x100_0000 == 127,
            IpAddr::V6(v) => v == 1,
        }
    }

    #[verifier::when_used_as_spec(spec_is_loopback)]
    pub fn is_loopback(&self) -> (r: bool)
        ensures
            r == self.spec_is_loopback(),
    {
        match self {
            IpAddr::V4(v) => *v / 0x100_0000 == 127,
            IpAddr::V6(v) => *v == 1,
        }
    }

    /// True when both addresses belong to the same family.
    pub open spec fn spec_same_family(&self, other: &IpAddr) -> bool {
        self.spec_is_v4() == other.spec_is_v4()
    }

    #[verifier::when_used_as_spec(spec_same_family)]
    pub fn same_family(&self, other: &IpAddr) -> (r: bool)
        ensures
            r == self.spec_same_family(other),
    {
        self.is_v4() == other.is_v4()
    }
}

} // verus!
