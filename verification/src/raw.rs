//! Raw records, as a platform adapter hands them in.
//!
//! The operating system reports interfaces as a list of address records.
//! An adapter copies each record into a [`RawEntry`] of plain values and
//! tags every address buffer with one of the family constants below; the
//! verified core never sees the OS structures themselves.
//!
//! The buffer layout behind each tag is the library's own:
//!
//! * [`FAMILY_INET`]: at least 4 bytes; bytes `0..4` are the address in
//!   network (big-endian) order.
//! * [`FAMILY_INET6`]: at least 20 bytes; bytes `0..16` are the address in
//!   network order and bytes `16..20` the scope id, least significant
//!   byte first.
//! * [`FAMILY_LINK`]: byte `0` is the declared hardware-address length,
//!   followed by that many hardware-address bytes.
//!
//! Any other tag marks a family the library does not interpret; an
//! adapter maps families it does not recognize to [`FAMILY_UNSPEC`].

use vstd::prelude::*;

verus! {

/// Tag of an address buffer no family claims.
pub const FAMILY_UNSPEC: u16 = 0;

/// Tag of an IPv4 address buffer.
pub const FAMILY_INET: u16 = 2;

/// Tag of an IPv6 address buffer.
pub const FAMILY_INET6: u16 = 10;

/// Tag of a link-layer (hardware address) buffer.
pub const FAMILY_LINK: u16 = 17;

/// One family-tagged raw address buffer.
#[derive(Clone, Debug, PartialEq, Eq)]
pub struct RawAddress {
    /// Which family the bytes in `data` belong to.
    pub family: u16,
    /// The raw bytes, laid out as the family's tag prescribes.
    pub data: Vec<u8>,
}

/// One raw record of the snapshot: a single (interface, address) pair as
/// the operating system reported it.
#[derive(Clone, Debug, PartialEq, Eq)]
pub struct RawEntry {
    /// Interface name bytes, without any terminator.
    pub name: Vec<u8>,
    /// Primary address of the record, if the OS supplied one.
    pub addr: Option<RawAddress>,
    /// Netmask of the record, if the OS supplied one.
    pub netmask: Option<RawAddress>,
    /// Platform flags bitmask, passed through uninterpreted.
    pub flags: u64,
    /// The platform's operational-status indicator for the interface.
    pub up: bool,
}

} // verus!
