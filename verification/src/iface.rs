//! The output record of a snapshot.
//!
//! An [`Interface`] pairs one interface name with one address, enriched
//! with netmask, MAC, scope id and the platform's flag bits.  Its
//! mathematical shape is [`InterfaceModel`], which every contract of the
//! library speaks of; [`wf_interface`] is the invariant every emitted
//! record satisfies.

use vstd::arithmetic::power2::{lemma2_to64, lemma_pow2_adds, lemma_pow2_unfold, pow2};
use vstd::prelude::*;

use crate::addr::IpAddr;

verus! {

/// Bit positions of the well-known flag predicates, following the POSIX
/// `IFF_*` layout.  Platforms that lack a notion leave its bit clear.
pub const FLAG_UP: u64 = 0x1;

/// Broadcast-capable interface flag bit.
pub const FLAG_BROADCAST: u64 = 0x2;

/// Loopback interface flag bit.
pub const FLAG_LOOPBACK: u64 = 0x8;

/// Point-to-point link flag bit.
pub const FLAG_POINTOPOINT: u64 = 0x10;

/// Resources-allocated (running) flag bit.
pub const FLAG_RUNNING: u64 = 0x40;

/// No-ARP flag bit.
pub const FLAG_NOARP: u64 = 0x80;

/// Promiscuous-mode flag bit.
pub const FLAG_PROMISC: u64 = 0x100;

/// Bonding-master role flag bit.
pub const FLAG_MASTER: u64 = 0x400;

/// Bonding-slave role flag bit.
pub const FLAG_SLAVE: u64 = 0x800;

/// Multicast-capable interface flag bit.
pub const FLAG_MULTICAST: u64 = 0x1000;

/// The number of one bits in `n`.
pub open spec fn ones(n: nat) -> nat
    decreases n,
{
    if n == 0 {
        0
    } else {
        (n % 2 + ones(n / 2)) as nat
    }
}

/// A number below `pow2(bits)` has at most `bits` one bits.
pub proof fn lemma_ones_bound(n: nat, bits: nat)
    requires
        n < pow2(bits),
    ensures
        ones(n) <= bits,
    decreases bits,
{
    if bits == 0 {
        lemma2_to64();
    } else {
        lemma_pow2_unfold(bits);
        lemma_ones_bound(n / 2, (bits - 1) as nat);
    }
}

/// The CIDR prefix length of a netmask: the count of its one bits.
pub open spec fn prefix_len_of(mask: IpAddr) -> nat {
    match mask {
        IpAddr::V4(v) => ones(v as nat),
        IpAddr::V6(v) => ones(v as nat),
    }
}

/// One interface of the snapshot, as a record of plain values.
#[derive(Clone, Debug, Hash, PartialEq, Eq)]
pub struct Interface {
    pub(crate) name: String,
    pub(crate) flags: u64,
    pub(crate) mac: [u8; 6],
    pub(crate) address: IpAddr,
    pub(crate) scope_id: Option<u32>,
    pub(crate) netmask: IpAddr,
}

/// The mathematical shape of an [`Interface`]: what every contract of
/// the library states its results in.
pub struct InterfaceModel {
    /// The interface name, never empty for an emitted record.
    pub name: Seq<char>,
    /// The platform flags bitmask, passed through uninterpreted.
    pub flags: u64,
    /// The hardware address, all zero where none was resolved.
    pub mac: Seq<u8>,
    /// The interface address.
    pub address: IpAddr,
    /// The IPv6 scope id; present exactly for IPv6 addresses.
    pub scope_id: Option<u32>,
    /// The netmask, of the same family as the address.
    pub netmask: IpAddr,
}

impl View for Interface {
    type V = InterfaceModel;

    closed spec fn view(&self) -> InterfaceModel {
        InterfaceModel {
            name: self.name@,
            flags: self.flags,
            mac: self.mac@,
            address: self.address,
            scope_id: self.scope_id,
            netmask: self.netmask,
        }
    }
}

/// The invariant of every emitted record: a non-empty name, a six-byte
/// MAC, a scope id exactly for IPv6, and a netmask of the address's
/// family.
pub open spec fn wf_interface(m: InterfaceModel) -> bool {
    &&& m.name.len() > 0
    &&& m.mac.len() == 6
    &&& (m.scope_id is Some) == m.address.spec_is_v6()
    &&& m.netmask.spec_same_family(&m.address)
}

/// Counts the one bits of `v`; at most 128 of them exist.
fn count_ones_u128(v: u128) -> (c: u8)
    ensures
        c == ones(v as nat),
{
    proof {
        lemma2_to64();
        lemma_pow2_adds(64, 64);
        lemma_ones_bound(v as nat, 128);
    }
    let mut x: u128 = v;
    let mut c: u8 = 0;
    while x > 0
        invariant
            c + ones(x as nat) == ones(v as nat),
            ones(v as nat) <= 128,
        decreases x,
    {
        c = c + (x % 2) as u8;
        x = x / 2;
    }
    c
}

impl Interface {
    /// Packs decoded pieces into one record; the builder's constructor.
    pub(crate) fn assemble(
        name: String,
        flags: u64,
        mac: [u8; 6],
        address: IpAddr,
        scope_id: Option<u32>,
        netmask: IpAddr,
    ) -> (r: Interface)
        ensures
            r@ == (InterfaceModel {
                name: name@,
                flags,
                mac: mac@,
                address,
                scope_id,
                netmask,
            }),
    {
        Interface { name, flags, mac, address, scope_id, netmask }
    }

    /// Interface name, e.g. `lo`.
    pub fn name(&self) -> (r: &str)
        ensures
            r@ == self@.name,
    {
        self.name.as_str()
    }

    /// The platform flags bitmask, bit meanings uninterpreted.
    pub fn flags(&self) -> (r: u64)
        ensures
            r == self@.flags,
    {
        self.flags
    }

    /// MAC address, all zero where no link-layer record matched.
    pub fn mac(&self) -> (r: [u8; 6])
        ensures
            r@ == self@.mac,
    {
        self.mac
    }

    /// Interface address.
    pub fn address(&self) -> (r: &IpAddr)
        ensures
            *r == self@.address,
    {
        &self.address
    }

    /// IPv6 scope id, or `None` for an IPv4 address.
    pub fn scope_id(&self) -> (r: Option<u32>)
        ensures
            r == self@.scope_id,
    {
        self.scope_id
    }

    /// Netmask, of the same family as the address.
    pub fn netmask(&self) -> (r: &IpAddr)
        ensures
            *r == self@.netmask,
    {
        &self.netmask
    }

    /// The host address paired with the netmask's prefix length — the
    /// host address deliberately, not the network address.
    pub fn cidr(&self) -> (r: (&IpAddr, u8))
        ensures
            *r.0 == self@.address,
            r.1 == prefix_len_of(self@.netmask),
    {
        let range: u8 = match &self.netmask {
            IpAddr::V4(v) => count_ones_u128(*v as u128),
            IpAddr::V6(v) => count_ones_u128(*v),
        };
        (&self.address, range)
    }

    /// Whether the operating system reports the interface as up.
    pub fn is_up(&self) -> (r: bool)
        ensures
            r == (self@.flags & FLAG_UP != 0),
    {
        self.flags & FLAG_UP != 0
    }

    /// Whether the interface is broadcast-capable.
    pub fn is_broadcast(&self) -> (r: bool)
        ensures
            r == (self@.flags & FLAG_BROADCAST != 0),
    {
        self.flags & FLAG_BROADCAST != 0
    }

    /// Whether the interface is a loopback device.
    pub fn is_loopback(&self) -> (r: bool)
        ensures
            r == (self@.flags & FLAG_LOOPBACK != 0),
    {
        self.flags & FLAG_LOOPBACK != 0
    }

    /// Whether the interface is a point-to-point link.
    pub fn is_point_to_point(&self) -> (r: bool)
        ensures
            r == (self@.flags & FLAG_POINTOPOINT != 0),
    {
        self.flags & FLAG_POINTOPOINT != 0
    }

    /// Whether the interface has resources allocated.
    pub fn is_running(&self) -> (r: bool)
        ensures
            r == (self@.flags & FLAG_RUNNING != 0),
    {
        self.flags & FLAG_RUNNING != 0
    }

    /// Whether the interface answers no ARP requests.
    pub fn is_no_arp(&self) -> (r: bool)
        ensures
            r == (self@.flags & FLAG_NOARP != 0),
    {
        self.flags & FLAG_NOARP != 0
    }

    /// Whether the interface is in promiscuous mode.
    pub fn is_promiscuous(&self) -> (r: bool)
        ensures
            r == (self@.flags & FLAG_PROMISC != 0),
    {
        self.flags & FLAG_PROMISC != 0
    }

    /// Whether the interface is a bonding master.
    pub fn is_master(&self) -> (r: bool)
        ensures
            r == (self@.flags & FLAG_MASTER != 0),
    {
        self.flags & FLAG_MASTER != 0
    }

    /// Whether the interface is a bonding slave.
    pub fn is_slave(&self) -> (r: bool)
        ensures
            r == (self@.flags & FLAG_SLAVE != 0),
    {
        self.flags & FLAG_SLAVE != 0
    }

    /// Whether the interface is multicast-capable.
    pub fn is_multicast(&self) -> (r: bool)
        ensures
            r == (self@.flags & FLAG_MULTICAST != 0),
    {
        self.flags & FLAG_MULTICAST != 0
    }
}

} // verus!
