//! Family-tagged decoding of raw address buffers.
//!
//! Dispatch is keyed by the explicit family tag of a [`RawAddress`];
//! every variant checks the buffer's length before it reads any
//! fixed-width field.  A buffer that is too short for its family, or a
//! link-layer buffer whose declared hardware length is not six, is
//! rejected — callers skip such records, they are not errors.

use vstd::prelude::*;

use crate::addr::IpAddr;
use crate::raw::{RawAddress, FAMILY_INET, FAMILY_INET6, FAMILY_LINK};

verus! {

/// The IPv4 address held in the first four bytes, big endian.
pub open spec fn be32_of(s: Seq<u8>) -> u32 {
    (s[0] * 0x100_0000 + s[1] * 0x1_0000 + s[2] * 0x100 + s[3]) as u32
}

/// The IPv6 address held in the first sixteen bytes, big endian.
pub open spec fn be128_of(s: Seq<u8>) -> u128 {
    (s[0] * 0x100_0000_0000_0000_0000_0000_0000_0000
        + s[1] * 0x1_0000_0000_0000_0000_0000_0000_0000
        + s[2] * 0x100_0000_0000_0000_0000_0000_0000
        + s[3] * 0x1_0000_0000_0000_0000_0000_0000
        + s[4] * 0x100_0000_0000_0000_0000_0000
        + s[5] * 0x1_0000_0000_0000_0000_0000
        + s[6] * 0x100_0000_0000_0000_0000
        + s[7] * 0x1_0000_0000_0000_0000
        + s[8] * 0x100_0000_0000_0000
        + s[9] * 0x1_0000_0000_0000
        + s[10] * 0x100_0000_0000
        + s[11] * 0x1_0000_0000
        + s[12] * 0x100_0000
        + s[13] * 0x1_0000
        + s[14] * 0x100
        + s[15]) as u128
}

/// The scope id held in bytes `16..20`, least significant byte first.
pub open spec fn scope_le_of(s: Seq<u8>) -> u32 {
    (s[16] + s[17] * 0x100 + s[18] * 0x1_0000 + s[19] * 0x100_0000) as u32
}

/// What an address buffer decodes to, or `None` where its family is not
/// an IP family or the buffer is too short for it.
pub open spec fn ip_of(a: RawAddress) -> Option<IpAddr> {
    if a.family == FAMILY_INET {
        if a.data@.len() >= 4 {
            Some(IpAddr::V4(be32_of(a.data@)))
        } else {
            None
        }
    } else if a.family == FAMILY_INET6 {
        if a.data@.len() >= 20 {
            Some(IpAddr::V6(be128_of(a.data@)))
        } else {
            None
        }
    } else {
        None
    }
}

/// The scope id of an IPv6 buffer; `None` for every other family.
pub open spec fn scope_of(a: RawAddress) -> Option<u32> {
    if a.family == FAMILY_INET6 && a.data@.len() >= 20 {
        Some(scope_le_of(a.data@))
    } else {
        None
    }
}

/// Whether a link-layer buffer declares and carries a hardware address
/// of exactly six bytes.
pub open spec fn mac_ok(a: RawAddress) -> bool {
    &&& a.family == FAMILY_LINK
    &&& a.data@.len() >= 7
    &&& a.data@[0] == 6
}

/// The six hardware-address bytes of a link-layer buffer.
pub open spec fn mac_bytes_of(a: RawAddress) -> Seq<u8> {
    a.data@.subrange(1, 7)
}

/// True exactly of buffers tagged with the link-layer family.
pub fn is_link(a: &RawAddress) -> (r: bool)
    ensures
        r == (a.family == FAMILY_LINK),
{
    a.family == FAMILY_LINK
}

/// Decodes an IPv4 or IPv6 address from a family-tagged buffer.
pub fn decode_ip(a: &RawAddress) -> (r: Option<IpAddr>)
    ensures
        r == ip_of(*a),
{
    if a.family == FAMILY_INET {
        if a.data.len() >= 4 {
            let v: u32 = (a.data[0] as u32) * 0x100_0000 + (a.data[1] as u32) * 0x1_0000
                + (a.data[2] as u32) * 0x100 + (a.data[3] as u32);
            Some(IpAddr::V4(v))
        } else {
            None
        }
    } else if a.family == FAMILY_INET6 {
        if a.data.len() >= 20 {
            let v: u128 = (a.data[0] as u128) * 0x100_0000_0000_0000_0000_0000_0000_0000
                + (a.data[1] as u128) * 0x1_0000_0000_0000_0000_0000_0000_0000
                + (a.data[2] as u128) * 0x100_0000_0000_0000_0000_0000_0000
                + (a.data[3] as u128) * 0x1_0000_0000_0000_0000_0000_0000
                + (a.data[4] as u128) * 0x100_0000_0000_0000_0000_0000
                + (a.data[5] as u128) * 0x1_0000_0000_0000_0000_0000
                + (a.data[6] as u128) * 0x100_0000_0000_0000_0000
                + (a.data[7] as u128) * 0x1_0000_0000_0000_0000
                + (a.data[8] as u128) * 0x100_0000_0000_0000
                + (a.data[9] as u128) * 0x1_0000_0000_0000
                + (a.data[10] as u128) * 0x100_0000_0000
                + (a.data[11] as u128) * 0x1_0000_0000
                + (a.data[12] as u128) * 0x100_0000
                + (a.data[13] as u128) * 0x1_0000
                + (a.data[14] as u128) * 0x100
                + (a.data[15] as u128);
            Some(IpAddr::V6(v))
        } else {
            None
        }
    } else {
        None
    }
}

/// Decodes the scope id of an IPv6 buffer.
pub fn decode_scope(a: &RawAddress) -> (r: Option<u32>)
    ensures
        r == scope_of(*a),
{
    if a.family == FAMILY_INET6 && a.data.len() >= 20 {
        let v: u32 = (a.data[16] as u32) + (a.data[17] as u32) * 0x100
            + (a.data[18] as u32) * 0x1_0000 + (a.data[19] as u32) * 0x100_0000;
        Some(v)
    } else {
        None
    }
}

/// Decodes the hardware address of a link-layer buffer; rejects any
/// declared length other than six.
pub fn decode_mac(a: &RawAddress) -> (r: Option<[u8; 6]>)
    ensures
        (r is Some) == mac_ok(*a),
        r matches Some(m) ==> m@ == mac_bytes_of(*a),
{
    if a.family == FAMILY_LINK && a.data.len() >= 7 && a.data[0] == 6 {
        let m: [u8; 6] = [a.data[1], a.data[2], a.data[3], a.data[4], a.data[5], a.data[6]];
        proof {
            assert(m@ =~= mac_bytes_of(*a));
        }
        Some(m)
    } else {
        None
    }
}

/// Encodes an address back into a family-tagged buffer of the
/// library's layout.  Decoding the buffer yields the address again —
/// with a zero scope id for IPv6 — so adapters that only know a derived
/// netmask value can hand it in as a raw buffer.
pub fn encode_ip(a: &IpAddr) -> (r: RawAddress)
    ensures
        ip_of(r) == Some(*a),
        a.spec_is_v4() ==> r.family == FAMILY_INET,
        a.spec_is_v6() ==> r.family == FAMILY_INET6,
        a.spec_is_v6() ==> scope_of(r) == Some(0u32),
{
    match a {
        IpAddr::V4(v) => {
            let b0: u8 = (*v / 0x100_0000) as u8;
            let m0: u32 = *v % 0x100_0000;
            let b1: u8 = (m0 / 0x1_0000) as u8;
            let m1: u32 = m0 % 0x1_0000;
            let b2: u8 = (m1 / 0x100) as u8;
            let b3: u8 = (m1 % 0x100) as u8;
            let mut data: Vec<u8> = Vec::new();
            data.push(b0);
            data.push(b1);
            data.push(b2);
            data.push(b3);
            let out = RawAddress { family: FAMILY_INET, data };
            proof {
                assert(out.data@ =~= seq![b0, b1, b2, b3]);
                assert(be32_of(out.data@) == *v);
            }
            out
        },
        IpAddr::V6(v) => {
            let b0: u8 = (*v / 0x100_0000_0000_0000_0000_0000_0000_0000) as u8;
            let m0: u128 = *v % 0x100_0000_0000_0000_0000_0000_0000_0000;
            let b1: u8 = (m0 / 0x1_0000_0000_0000_0000_0000_0000_0000) as u8;
            let m1: u128 = m0 % 0x1_0000_0000_0000_0000_0000_0000_0000;
            let b2: u8 = (m1 / 0x100_0000_0000_0000_0000_0000_0000) as u8;
            let m2: u128 = m1 % 0x100_0000_0000_0000_0000_0000_0000;
            let b3: u8 = (m2 / 0x1_0000_0000_0000_0000_0000_0000) as u8;
            let m3: u128 = m2 % 0x1_0000_0000_0000_0000_0000_0000;
            let b4: u8 = (m3 / 0x100_0000_0000_0000_0000_0000) as u8;
            let m4: u128 = m3 % 0x100_0000_0000_0000_0000_0000;
            let b5: u8 = (m4 / 0x1_0000_0000_0000_0000_0000) as u8;
            let m5: u128 = m4 % 0x1_0000_0000_0000_0000_0000;
            let b6: u8 = (m5 / 0x100_0000_0000_0000_0000) as u8;
            let m6: u128 = m5 % 0x100_0000_0000_0000_0000;
            let b7: u8 = (m6 / 0x1_0000_0000_0000_0000) as u8;
            let m7: u128 = m6 % 0x1_0000_0000_0000_0000;
            let b8: u8 = (m7 / 0x100_0000_0000_0000) as u8;
            let m8: u128 = m7 % 0x100_0000_0000_0000;
            let b9: u8 = (m8 / 0x1_0000_0000_0000) as u8;
            let m9: u128 = m8 % 0x1_0000_0000_0000;
            let b10: u8 = (m9 / 0x100_0000_0000) as u8;
            let m10: u128 = m9 % 0x100_0000_0000;
            let b11: u8 = (m10 / 0x1_0000_0000) as u8;
            let m11: u128 = m10 % 0x1_0000_0000;
            let b12: u8 = (m11 / 0x100_0000) as u8;
            let m12: u128 = m11 % 0x100_0000;
            let b13: u8 = (m12 / 0x1_0000) as u8;
            let m13: u128 = m12 % 0x1_0000;
            let b14: u8 = (m13 / 0x100) as u8;
            let m14: u128 = m13 % 0x100;
            let b15: u8 = m14 as u8;
            let mut data: Vec<u8> = Vec::new();
            data.push(b0);
            data.push(b1);
            data.push(b2);
            data.push(b3);
            data.push(b4);
            data.push(b5);
            data.push(b6);
            data.push(b7);
            data.push(b8);
            data.push(b9);
            data.push(b10);
            data.push(b11);
            data.push(b12);
            data.push(b13);
            data.push(b14);
            data.push(b15);
            data.push(0);
            data.push(0);
            data.push(0);
            data.push(0);
            let out = RawAddress { family: FAMILY_INET6, data };
            proof {
                assert(out.data@ =~= seq![b0, b1, b2, b3, b4, b5, b6, b7, b8, b9, b10, b11, b12, b13, b14, b15, 0u8, 0u8, 0u8, 0u8]);
                assert(be128_of(out.data@) == *v);
                assert(scope_le_of(out.data@) == 0);
            }
            out
        },
    }
}

} // verus!
