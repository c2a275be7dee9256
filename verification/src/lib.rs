//! A point-in-time snapshot of the host's network interfaces.
//!
//! The library holds the platform-independent core of interface
//! enumeration: decoding family-tagged raw address records, correlating
//! link-layer (MAC) records with IP records by name, and assembling the
//! decoded pieces into `Interface` values.  Platform adapters acquire the
//! raw records from the operating system and hand them in as plain
//! [`RawEntry`] values; everything from there on is verified.

mod adapters;
mod addr;
mod builder;
mod correlate;
mod decode;
mod hex;
mod iface;
mod raw;
mod snapshot;

pub use adapters::{mask_v4_of, mask_v6_of, netmask_from_prefix, nul_prefix_len, utf16_lossy_of, wide_name};
pub use addr::IpAddr;
pub use builder::{
    all_built, all_built_upto, built, built_up, list_all_from, list_up_from, model_of, models_of,
    seq_of_opt, to_interface, up_built, up_built_upto, utf8_lossy_of,
};
pub use correlate::{
    entry_mac, lemma_first_match_wins, lemma_no_match_is_zero, link_entry_for, mac_lookup,
    mac_lookup_from, mac_of, name_match, name_matches, zero_mac,
};
pub use decode::{
    be128_of, be32_of, decode_ip, decode_mac, decode_scope, encode_ip, ip_of, is_link,
    mac_bytes_of, mac_ok, scope_le_of, scope_of,
};
pub use hex::{byte_hex, hex_digit, mac_hex, mac_hex_of};
pub use iface::{
    ones, prefix_len_of, wf_interface, Interface, InterfaceModel, FLAG_BROADCAST, FLAG_LOOPBACK,
    FLAG_MASTER, FLAG_MULTICAST, FLAG_NOARP, FLAG_POINTOPOINT, FLAG_PROMISC, FLAG_RUNNING,
    FLAG_SLAVE, FLAG_UP,
};
pub use raw::{RawAddress, RawEntry, FAMILY_INET, FAMILY_INET6, FAMILY_LINK, FAMILY_UNSPEC};
pub use snapshot::{
    collect_all, collect_up, lemma_built_scope_and_family, lemma_list_all_scope_and_family,
    lemma_list_up_scope_and_family, lemma_snapshot_idempotent, lemma_up_is_filtered_all, OsError,
};

