//! Snapshot entry points and the properties the output obeys.
//!
//! A platform adapter performs the one acquisition call and hands in
//! either the materialized raw records or the platform's error code; a
//! snapshot either succeeds as a whole, with records individually
//! filtered, or fails atomically at acquisition.  An empty record list
//! is a valid, non-error outcome.

use vstd::prelude::*;

use crate::builder::{
    all_built, all_built_upto, built, built_up, list_all_from, list_up_from, models_of,
    up_built, up_built_upto,
};
use crate::iface::{wf_interface, Interface, InterfaceModel};
use crate::raw::RawEntry;

verus! {

/// The platform error code an acquisition failure surfaces.
#[derive(Clone, Copy, Debug, PartialEq, Eq, Structural)]
pub struct OsError {
    /// The raw error code of the platform's last-error report.
    pub code: i32,
}

/// Lists every interface of an acquired snapshot, or surfaces the
/// acquisition failure untouched.
pub fn collect_all(acq: Result<Vec<RawEntry>, i32>) -> (r: Result<Vec<Interface>, OsError>)
    ensures
        acq matches Err(c) ==> r matches Err(e) && e.code == c,
        acq matches Ok(v) ==> r matches Ok(out) && models_of(out@) == all_built(v@) && (forall|k: int|
        0 <= k < out@.len() ==> wf_interface(#[trigger] out@[k]@)),
{
    match acq {
        Ok(v) => Ok(list_all_from(&v)),
        Err(c) => Err(OsError { code: c }),
    }
}

/// Lists the operationally active interfaces of an acquired snapshot,
/// or surfaces the acquisition failure untouched.
pub fn collect_up(acq: Result<Vec<RawEntry>, i32>) -> (r: Result<Vec<Interface>, OsError>)
    ensures
        acq matches Err(c) ==> r matches Err(e) && e.code == c,
        acq matches Ok(v) ==> r matches Ok(out) && models_of(out@) == up_built(v@) && (forall|k: int|
        0 <= k < out@.len() ==> wf_interface(#[trigger] out@[k]@)),
{
    match acq {
        Ok(v) => Ok(list_up_from(&v)),
        Err(c) => Err(OsError { code: c }),
    }
}

/// Every record the builder emits carries a scope id exactly when its
/// address is IPv6, and a netmask of its address's family.
pub proof fn lemma_built_scope_and_family(e: RawEntry, all: Seq<RawEntry>)
    ensures
        built(e, all) matches Some(m) ==> (m.scope_id is Some) == m.address.spec_is_v6()
            && m.netmask.spec_same_family(&m.address),
{
}

/// Every record of a full listing carries a scope id exactly when its
/// address is IPv6, and a netmask of its address's family.
pub proof fn lemma_list_all_scope_and_family(entries: Seq<RawEntry>)
    ensures
        forall|k: int| 0 <= k < all_built(entries).len() ==> {
            let m = #[trigger] all_built(entries)[k];
            (m.scope_id is Some) == m.address.spec_is_v6() && m.netmask.spec_same_family(
                &m.address,
            )
        },
{
    lemma_upto_scope_and_family(entries, entries.len() as int);
}

/// Every record of an active-only listing carries a scope id exactly
/// when its address is IPv6, and a netmask of its address's family.
pub proof fn lemma_list_up_scope_and_family(entries: Seq<RawEntry>)
    ensures
        forall|k: int| 0 <= k < up_built(entries).len() ==> {
            let m = #[trigger] up_built(entries)[k];
            (m.scope_id is Some) == m.address.spec_is_v6() && m.netmask.spec_same_family(
                &m.address,
            )
        },
{
    lemma_up_upto_scope_and_family(entries, entries.len() as int);
}

proof fn lemma_upto_scope_and_family(entries: Seq<RawEntry>, n: int)
    ensures
        forall|k: int| 0 <= k < all_built_upto(entries, n).len() ==> {
            let m = #[trigger] all_built_upto(entries, n)[k];
            (m.scope_id is Some) == m.address.spec_is_v6() && m.netmask.spec_same_family(
                &m.address,
            )
        },
    decreases n,
{
    if n > 0 {
        lemma_upto_scope_and_family(entries, n - 1);
        lemma_built_scope_and_family(entries[n - 1], entries);
    }
}

proof fn lemma_up_upto_scope_and_family(entries: Seq<RawEntry>, n: int)
    ensures
        forall|k: int| 0 <= k < up_built_upto(entries, n).len() ==> {
            let m = #[trigger] up_built_upto(entries, n)[k];
            (m.scope_id is Some) == m.address.spec_is_v6() && m.netmask.spec_same_family(
                &m.address,
            )
        },
    decreases n,
{
    if n > 0 {
        lemma_up_upto_scope_and_family(entries, n - 1);
        lemma_built_scope_and_family(entries[n - 1], entries);
    }
}

/// Listing one unchanged snapshot of raw records twice yields the same
/// records, and in particular the same count.
pub proof fn lemma_snapshot_idempotent(
    entries: Seq<RawEntry>,
    first: Seq<InterfaceModel>,
    second: Seq<InterfaceModel>,
)
    requires
        first == all_built(entries),
        second == all_built(entries),
    ensures
        first == second,
        first.len() == second.len(),
{
}

/// The active-only listing holds exactly the records of the full
/// listing whose raw record was operationally up: restricting the
/// builder to up records before or after MAC resolution is the same.
pub proof fn lemma_up_is_filtered_all(entries: Seq<RawEntry>, e: RawEntry)
    ensures
        e.up ==> built_up(e, entries) == built(e, entries),
        !e.up ==> built_up(e, entries) is None,
{
}

} // verus!
