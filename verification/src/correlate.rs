//! Resolving the MAC of an IP-bearing record by name.
//!
//! An interface may expose several suffixed sub-entries (`eth0:1`,
//! `eth0:2`) that share one physical link-layer record (`eth0`).  An IP
//! record therefore takes its hardware address from the first link-layer
//! record, in list order, whose name equals its own name, or whose name
//! the record's own name extends with a `:` and a suffix.  Absence of a
//! match yields the all-zero MAC, never an error.

use vstd::prelude::*;

use crate::decode::{decode_mac, mac_bytes_of, mac_ok};
use crate::raw::RawEntry;

verus! {

/// The byte that separates an interface name from an alias suffix.
pub const NAME_SUFFIX_SEPARATOR: u8 = 58;

/// Whether an IP record named `ip_name` takes its MAC from a link-layer
/// record named `link_name`: the names are equal, or `ip_name` is
/// `link_name` followed by `:` and anything.
pub open spec fn name_matches(ip_name: Seq<u8>, link_name: Seq<u8>) -> bool {
    ||| link_name == ip_name
    ||| {
        &&& link_name.len() < ip_name.len()
        &&& ip_name.subrange(0, link_name.len() as int) == link_name
        &&& ip_name[link_name.len() as int] == NAME_SUFFIX_SEPARATOR
    }
}

/// Whether a raw record is a link-layer record, with a usable six-byte
/// hardware address, that an IP record named `ip_name` correlates to.
pub open spec fn link_entry_for(e: RawEntry, ip_name: Seq<u8>) -> bool {
    match e.addr {
        Some(a) => mac_ok(a) && name_matches(ip_name, e.name@),
        None => false,
    }
}

/// The hardware address carried by a raw record, for records whose
/// address buffer is link-layer.
pub open spec fn entry_mac(e: RawEntry) -> Seq<u8> {
    match e.addr {
        Some(a) => mac_bytes_of(a),
        None => Seq::empty(),
    }
}

/// The all-zero MAC, reported when no link-layer record matches.
pub open spec fn zero_mac() -> Seq<u8> {
    seq![0u8, 0u8, 0u8, 0u8, 0u8, 0u8]
}

/// The MAC that the scan resolves for `ip_name`, starting at index `i`:
/// the hardware address of the first matching link-layer record at or
/// after `i`, or the all-zero MAC.
pub open spec fn mac_lookup_from(ip_name: Seq<u8>, entries: Seq<RawEntry>, i: int) -> Seq<u8>
    decreases entries.len() - i,
{
    if !(0 <= i < entries.len()) {
        zero_mac()
    } else if link_entry_for(entries[i], ip_name) {
        entry_mac(entries[i])
    } else {
        mac_lookup_from(ip_name, entries, i + 1)
    }
}

/// The MAC that a full rescan of the raw list resolves for `ip_name`.
pub open spec fn mac_lookup(ip_name: Seq<u8>, entries: Seq<RawEntry>) -> Seq<u8> {
    mac_lookup_from(ip_name, entries, 0)
}

/// Decides `name_matches` on byte strings.
pub fn name_match(ip_name: &Vec<u8>, link_name: &Vec<u8>) -> (r: bool)
    ensures
        r == name_matches(ip_name@, link_name@),
{
    let n = link_name.len();
    if n > ip_name.len() {
        return false;
    }
    let mut i: usize = 0;
    while i < n
        invariant
            0 <= i <= n,
            n == link_name@.len() <= ip_name@.len(),
            forall|j: int| 0 <= j < i ==> ip_name@[j] == link_name@[j],
        decreases n - i,
    {
        if ip_name[i] != link_name[i] {
            return false;
        }
        i += 1;
    }
    if n == ip_name.len() {
        proof {
            assert(link_name@ =~= ip_name@);
        }
        true
    } else {
        proof {
            assert(ip_name@.subrange(0, n as int) =~= link_name@);
        }
        ip_name[n] == NAME_SUFFIX_SEPARATOR
    }
}

/// Rescans the full raw list and resolves the MAC for an IP record
/// named `ip_name`; the first matching link-layer record in list order
/// wins, and no match yields the all-zero MAC.
pub fn mac_of(ip_name: &Vec<u8>, entries: &Vec<RawEntry>) -> (m: [u8; 6])
    ensures
        m@ == mac_lookup(ip_name@, entries@),
{
    let n = entries.len();
    let mut i: usize = 0;
    while i < n
        invariant
            0 <= i <= n,
            n == entries@.len(),
            mac_lookup(ip_name@, entries@) == mac_lookup_from(ip_name@, entries@, i as int),
        decreases n - i,
    {
        let e = &entries[i];
        if let Some(a) = &e.addr {
            if let Some(m) = decode_mac(a) {
                if name_match(ip_name, &e.name) {
                    return m;
                }
            }
        }
        i += 1;
    }
    let zero: [u8; 6] = [0, 0, 0, 0, 0, 0];
    proof {
        assert(zero@ =~= zero_mac());
    }
    zero
}

/// A stretch of records none of which matches leaves the scan's result
/// unchanged.
proof fn lemma_lookup_skips(ip_name: Seq<u8>, entries: Seq<RawEntry>, i: int, j: int)
    requires
        0 <= i <= j <= entries.len(),
        forall|k: int| i <= k < j ==> !link_entry_for(#[trigger] entries[k], ip_name),
    ensures
        mac_lookup_from(ip_name, entries, i) == mac_lookup_from(ip_name, entries, j),
    decreases j - i,
{
    if i < j {
        lemma_lookup_skips(ip_name, entries, i + 1, j);
    }
}

/// The first matching link-layer record in list order wins: where no
/// earlier record matches, the scan resolves record `j`'s hardware
/// address.
pub proof fn lemma_first_match_wins(ip_name: Seq<u8>, entries: Seq<RawEntry>, j: int)
    requires
        0 <= j < entries.len(),
        link_entry_for(entries[j], ip_name),
        forall|k: int| 0 <= k < j ==> !link_entry_for(#[trigger] entries[k], ip_name),
    ensures
        mac_lookup(ip_name, entries) == entry_mac(entries[j]),
{
    lemma_lookup_skips(ip_name, entries, 0, j);
}

/// Absence of any matching link-layer record yields the all-zero MAC,
/// not an error.
pub proof fn lemma_no_match_is_zero(ip_name: Seq<u8>, entries: Seq<RawEntry>)
    requires
        forall|k: int| 0 <= k < entries.len() ==> !link_entry_for(#[trigger] entries[k], ip_name),
    ensures
        mac_lookup(ip_name, entries) == zero_mac(),
{
    lemma_lookup_skips(ip_name, entries, 0, entries.len() as int);
}

} // verus!
