//! Building output records from raw records.
//!
//! For each raw record, in list order: a record without a primary
//! address is skipped; a link-layer record is skipped (it exists only to
//! be found by the correlation rescan, never emitted); an address that
//! fails to decode is skipped; a missing or undecodable netmask, or one
//! of a different family than the address, is skipped — the one fixed
//! policy this library applies; a record with an empty name is skipped.
//! Every surviving record is emitted with its MAC resolved by the
//! correlation rescan and, for IPv6, its scope id.

use vstd::prelude::*;

use crate::correlate::{mac_lookup, mac_of};
use crate::decode::{decode_ip, decode_scope, ip_of, is_link, scope_of};
use crate::iface::{wf_interface, Interface, InterfaceModel};
use crate::raw::{RawEntry, FAMILY_LINK};

verus! {

/// The characters that lossy UTF-8 decoding yields for a byte string.
pub uninterp spec fn utf8_lossy_of(bytes: Seq<u8>) -> Seq<char>;

/// Relies on `String::from_utf8_lossy`: the characters depend on the
/// bytes alone, and the result is empty exactly when the input is.
#[verifier::external_body]
fn utf8_lossy(bytes: &Vec<u8>) -> (r: String)
    ensures
        r@ == utf8_lossy_of(bytes@),
        (bytes@.len() == 0) <==> (r@.len() == 0),
{
    String::from_utf8_lossy(bytes.as_slice()).into_owned()
}

/// What the builder emits for one raw record of a snapshot, or `None`
/// where one of the skip rules applies.
pub open spec fn built(e: RawEntry, all: Seq<RawEntry>) -> Option<InterfaceModel> {
    match e.addr {
        None => None,
        Some(a) => {
            if a.family == FAMILY_LINK {
                None
            } else {
                match ip_of(a) {
                    None => None,
                    Some(address) => match e.netmask {
                        None => None,
                        Some(mraw) => match ip_of(mraw) {
                            None => None,
                            Some(mask) => {
                                if !address.spec_same_family(&mask) {
                                    None
                                } else if e.name@.len() == 0 {
                                    None
                                } else {
                                    Some(
                                        InterfaceModel {
                                            name: utf8_lossy_of(e.name@),
                                            flags: e.flags,
                                            mac: mac_lookup(e.name@, all),
                                            address: address,
                                            scope_id: scope_of(a),
                                            netmask: mask,
                                        },
                                    )
                                }
                            },
                        },
                    },
                }
            }
        },
    }
}

/// What the active-only variant emits: as [`built`], restricted to
/// records whose operational-status indicator is set.
pub open spec fn built_up(e: RawEntry, all: Seq<RawEntry>) -> Option<InterfaceModel> {
    if e.up {
        built(e, all)
    } else {
        None
    }
}

/// The model of an optional output record.
pub open spec fn model_of(r: Option<Interface>) -> Option<InterfaceModel> {
    match r {
        Some(i) => Some(i@),
        None => None,
    }
}

/// The models of a sequence of output records.
pub open spec fn models_of(s: Seq<Interface>) -> Seq<InterfaceModel> {
    s.map_values(|i: Interface| i@)
}

/// Assembles the output record for one raw record, or skips it.
pub fn to_interface(e: &RawEntry, all: &Vec<RawEntry>) -> (r: Option<Interface>)
    ensures
        model_of(r) == built(*e, all@),
        r matches Some(i) ==> wf_interface(i@),
{
    let a = match &e.addr {
        Some(a) => a,
        None => {
            return None;
        },
    };
    if is_link(a) {
        return None;
    }
    let address = match decode_ip(a) {
        Some(x) => x,
        None => {
            return None;
        },
    };
    let mraw = match &e.netmask {
        Some(m) => m,
        None => {
            return None;
        },
    };
    let mask = match decode_ip(mraw) {
        Some(x) => x,
        None => {
            return None;
        },
    };
    if !address.same_family(&mask) {
        return None;
    }
    if e.name.len() == 0 {
        return None;
    }
    let mac = mac_of(&e.name, all);
    let scope_id = decode_scope(a);
    let name = utf8_lossy(&e.name);
    Some(Interface::assemble(name, e.flags, mac, address, scope_id, mask))
}

/// The models emitted for the first `n` raw records.
pub open spec fn all_built_upto(entries: Seq<RawEntry>, n: int) -> Seq<InterfaceModel>
    decreases n,
{
    if n <= 0 {
        Seq::empty()
    } else {
        all_built_upto(entries, n - 1) + seq_of_opt(built(entries[n - 1], entries))
    }
}

/// The models of every record a snapshot emits.
pub open spec fn all_built(entries: Seq<RawEntry>) -> Seq<InterfaceModel> {
    all_built_upto(entries, entries.len() as int)
}

/// The models the active-only variant emits for the first `n` records.
pub open spec fn up_built_upto(entries: Seq<RawEntry>, n: int) -> Seq<InterfaceModel>
    decreases n,
{
    if n <= 0 {
        Seq::empty()
    } else {
        up_built_upto(entries, n - 1) + seq_of_opt(built_up(entries[n - 1], entries))
    }
}

/// The models of every record the active-only variant emits.
pub open spec fn up_built(entries: Seq<RawEntry>) -> Seq<InterfaceModel> {
    up_built_upto(entries, entries.len() as int)
}

/// A one-element or empty sequence, from an optional model.
pub open spec fn seq_of_opt(m: Option<InterfaceModel>) -> Seq<InterfaceModel> {
    match m {
        Some(x) => seq![x],
        None => Seq::empty(),
    }
}

/// Emits, in list order, every raw record that decodes successfully.
pub fn list_all_from(entries: &Vec<RawEntry>) -> (out: Vec<Interface>)
    ensures
        models_of(out@) == all_built(entries@),
        forall|k: int| 0 <= k < out@.len() ==> wf_interface(#[trigger] out@[k]@),
{
    let n = entries.len();
    let mut out: Vec<Interface> = Vec::new();
    let mut i: usize = 0;
    while i < n
        invariant
            0 <= i <= n,
            n == entries@.len(),
            models_of(out@) == all_built_upto(entries@, i as int),
            forall|k: int| 0 <= k < out@.len() ==> wf_interface(#[trigger] out@[k]@),
        decreases n - i,
    {
        match to_interface(&entries[i], entries) {
            Some(ifa) => {
                out.push(ifa);
                proof {
                    assert(models_of(out@) =~= all_built_upto(entries@, i + 1));
                }
            },
            None => {
                proof {
                    assert(models_of(out@) =~= all_built_upto(entries@, i + 1));
                }
            },
        }
        i += 1;
    }
    out
}

/// Emits, in list order, every raw record that decodes successfully and
/// whose operational-status indicator is set.
pub fn list_up_from(entries: &Vec<RawEntry>) -> (out: Vec<Interface>)
    ensures
        models_of(out@) == up_built(entries@),
        forall|k: int| 0 <= k < out@.len() ==> wf_interface(#[trigger] out@[k]@),
{
    let n = entries.len();
    let mut out: Vec<Interface> = Vec::new();
    let mut i: usize = 0;
    while i < n
        invariant
            0 <= i <= n,
            n == entries@.len(),
            models_of(out@) == up_built_upto(entries@, i as int),
            forall|k: int| 0 <= k < out@.len() ==> wf_interface(#[trigger] out@[k]@),
        decreases n - i,
    {
        if entries[i].up {
            match to_interface(&entries[i], entries) {
                Some(ifa) => {
                    out.push(ifa);
                    proof {
                        assert(models_of(out@) =~= up_built_upto(entries@, i + 1));
                    }
                },
                None => {
                    proof {
                        assert(models_of(out@) =~= up_built_upto(entries@, i + 1));
                    }
                },
            }
        } else {
            proof {
                assert(models_of(out@) =~= up_built_upto(entries@, i + 1));
            }
        }
        i += 1;
    }
    out
}

} // verus!
