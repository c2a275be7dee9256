use netif::{
    collect_all, encode_ip, list_all_from, list_up_from, IpAddr, OsError, RawAddress, RawEntry,
    FAMILY_LINK, FLAG_LOOPBACK, FLAG_UP,
};

fn v4_raw(a: u8, b: u8, c: u8, d: u8) -> RawAddress {
    encode_ip(&IpAddr::v4(a, b, c, d))
}

fn v6_raw(groups: [u16; 8], scope: u32) -> RawAddress {
    let mut raw = encode_ip(&IpAddr::v6(groups));
    let bytes = scope.to_le_bytes();
    for k in 0..4 {
        raw.data[16 + k] = bytes[k];
    }
    raw
}

fn link_raw(mac: [u8; 6]) -> RawAddress {
    let mut data = vec![6u8];
    data.extend_from_slice(&mac);
    RawAddress {
        family: FAMILY_LINK,
        data,
    }
}

fn entry(
    name: &str,
    addr: Option<RawAddress>,
    netmask: Option<RawAddress>,
    flags: u64,
    up: bool,
) -> RawEntry {
    RawEntry {
        name: name.as_bytes().to_vec(),
        addr,
        netmask,
        flags,
        up,
    }
}

fn loopback_entries() -> Vec<RawEntry> {
    vec![
        entry(
            "lo",
            Some(v4_raw(127, 0, 0, 1)),
            Some(v4_raw(255, 0, 0, 0)),
            FLAG_UP | FLAG_LOOPBACK,
            true,
        ),
        entry(
            "lo",
            Some(v6_raw([0, 0, 0, 0, 0, 0, 0, 1], 0)),
            Some(v6_raw([0xffff; 8], 0)),
            FLAG_UP | FLAG_LOOPBACK,
            true,
        ),
        entry(
            "lo",
            Some(v6_raw([0xfe80, 0, 0, 0, 0, 0, 0, 1], 1)),
            Some(v6_raw([0xffff, 0xffff, 0xffff, 0xffff, 0, 0, 0, 0], 0)),
            FLAG_UP | FLAG_LOOPBACK,
            true,
        ),
    ]
}

#[test]
fn loopback_appears_with_predicate() {
    let out = list_all_from(&loopback_entries());
    assert_eq!(out.len(), 3);
    let v4 = out
        .iter()
        .find(|i| *i.address() == IpAddr::v4(127, 0, 0, 1))
        .expect("v4 loopback emitted");
    assert!(v4.is_loopback());
    assert!(v4.address().is_loopback());
    let v6 = out
        .iter()
        .find(|i| *i.address() == IpAddr::v6([0, 0, 0, 0, 0, 0, 0, 1]))
        .expect("v6 loopback emitted");
    assert!(v6.is_loopback());
    assert!(v6.address().is_loopback());
}

#[test]
fn scope_id_iff_v6() {
    for i in list_all_from(&loopback_entries()) {
        assert_eq!(i.scope_id().is_some(), i.address().is_v6());
        assert!(i.address().is_v4() ^ i.scope_id().is_some());
    }
}

#[test]
fn netmask_family_matches_address() {
    for i in list_up_from(&loopback_entries()) {
        assert_eq!(i.address().is_v4(), i.netmask().is_v4());
        assert!(i.address().same_family(i.netmask()));
    }
}

#[test]
fn names_never_empty() {
    let mut entries = loopback_entries();
    entries.push(entry(
        "",
        Some(v4_raw(10, 0, 0, 1)),
        Some(v4_raw(255, 0, 0, 0)),
        FLAG_UP,
        true,
    ));
    let out = list_all_from(&entries);
    assert_eq!(out.len(), 3);
    for i in out {
        assert!(!i.name().is_empty());
    }
}

#[test]
fn loopback_cidr_prefixes() {
    for i in list_all_from(&loopback_entries()) {
        let (address, range) = i.cidr();
        assert_eq!(address, i.address());
        let link_local = *address == IpAddr::v6([0xfe80, 0, 0, 0, 0, 0, 0, 1]);
        match address {
            IpAddr::V6(_) if link_local => assert_eq!(range, 64),
            IpAddr::V6(_) => assert_eq!(range, 128),
            IpAddr::V4(_) => assert_eq!(range, 8),
        }
    }
}

#[test]
fn scope_id_value_passes_through() {
    let entries = vec![entry(
        "lo",
        Some(v6_raw([0xfe80, 0, 0, 0, 0, 0, 0, 1], 3)),
        Some(v6_raw([0xffff, 0xffff, 0xffff, 0xffff, 0, 0, 0, 0], 0)),
        FLAG_UP,
        true,
    )];
    let out = list_all_from(&entries);
    assert_eq!(out.len(), 1);
    assert_eq!(out[0].scope_id(), Some(3));
}

#[test]
fn alias_resolves_mac_of_base_name() {
    let mac = [0x00, 0x1b, 0x44, 0x11, 0x3a, 0xb7];
    let entries = vec![
        entry("eth0", Some(link_raw(mac)), None, FLAG_UP, true),
        entry(
            "eth0",
            Some(v4_raw(192, 168, 0, 2)),
            Some(v4_raw(255, 255, 255, 0)),
            FLAG_UP,
            true,
        ),
        entry(
            "eth0:1",
            Some(v4_raw(192, 168, 0, 3)),
            Some(v4_raw(255, 255, 255, 0)),
            FLAG_UP,
            true,
        ),
        entry(
            "wlan0",
            Some(v4_raw(10, 0, 0, 9)),
            Some(v4_raw(255, 255, 0, 0)),
            FLAG_UP,
            true,
        ),
    ];
    let out = list_all_from(&entries);
    assert_eq!(out.len(), 3);
    let base = out.iter().find(|i| i.name() == "eth0").expect("base");
    assert_eq!(base.mac(), mac);
    let alias = out.iter().find(|i| i.name() == "eth0:1").expect("alias");
    assert_eq!(alias.mac(), mac);
    let other = out.iter().find(|i| i.name() == "wlan0").expect("other");
    assert_eq!(other.mac(), [0; 6]);
}

#[test]
fn similar_name_is_no_alias() {
    let mac = [2, 4, 6, 8, 10, 12];
    let entries = vec![
        entry("eth0", Some(link_raw(mac)), None, FLAG_UP, true),
        entry(
            "eth01",
            Some(v4_raw(192, 168, 7, 7)),
            Some(v4_raw(255, 255, 255, 0)),
            FLAG_UP,
            true,
        ),
    ];
    let out = list_all_from(&entries);
    assert_eq!(out.len(), 1);
    assert_eq!(out[0].mac(), [0; 6]);
}

#[test]
fn odd_hardware_length_is_skipped() {
    let mut data = vec![4u8];
    data.extend_from_slice(&[1, 2, 3, 4]);
    let short_link = RawAddress {
        family: FAMILY_LINK,
        data,
    };
    let entries = vec![
        entry("eth0", Some(short_link), None, FLAG_UP, true),
        entry(
            "eth0",
            Some(v4_raw(192, 168, 0, 2)),
            Some(v4_raw(255, 255, 255, 0)),
            FLAG_UP,
            true,
        ),
    ];
    let out = list_all_from(&entries);
    assert_eq!(out.len(), 1);
    assert_eq!(out[0].mac(), [0; 6]);
}

#[test]
fn skip_rules_filter_quietly() {
    let entries = vec![
        entry("noaddr", None, Some(v4_raw(255, 0, 0, 0)), FLAG_UP, true),
        entry(
            "nomask",
            Some(v4_raw(10, 0, 0, 1)),
            None,
            FLAG_UP,
            true,
        ),
        entry(
            "badfam",
            Some(RawAddress {
                family: 99,
                data: vec![1, 2, 3, 4],
            }),
            Some(v4_raw(255, 0, 0, 0)),
            FLAG_UP,
            true,
        ),
        entry(
            "short",
            Some(RawAddress {
                family: netif::FAMILY_INET,
                data: vec![10, 0],
            }),
            Some(v4_raw(255, 0, 0, 0)),
            FLAG_UP,
            true,
        ),
        entry(
            "mixed",
            Some(v4_raw(10, 0, 0, 2)),
            Some(v6_raw([0xffff; 8], 0)),
            FLAG_UP,
            true,
        ),
        entry(
            "good",
            Some(v4_raw(10, 0, 0, 3)),
            Some(v4_raw(255, 255, 0, 0)),
            FLAG_UP,
            true,
        ),
    ];
    let out = list_all_from(&entries);
    assert_eq!(out.len(), 1);
    assert_eq!(out[0].name(), "good");
}

#[test]
fn list_up_filters_down_interfaces() {
    let mut entries = loopback_entries();
    entries.push(entry(
        "down0",
        Some(v4_raw(10, 1, 1, 1)),
        Some(v4_raw(255, 255, 255, 0)),
        0,
        false,
    ));
    let all = list_all_from(&entries);
    let up = list_up_from(&entries);
    assert_eq!(all.len(), 4);
    assert_eq!(up.len(), 3);
    assert!(up.iter().all(|i| i.name() != "down0"));
}

#[test]
fn snapshot_is_idempotent() {
    let entries = loopback_entries();
    let first = list_all_from(&entries);
    let second = list_all_from(&entries);
    assert_eq!(first.len(), second.len());
    assert_eq!(first, second);
}

#[test]
fn acquisition_failure_surfaces_as_error() {
    let failed: Result<Vec<RawEntry>, i32> = Err(5);
    match collect_all(failed) {
        Err(OsError { code }) => assert_eq!(code, 5),
        Ok(_) => panic!("an acquisition failure must surface as an error"),
    }
    let fine: Result<Vec<RawEntry>, i32> = Ok(loopback_entries());
    match netif::collect_up(fine) {
        Ok(out) => assert_eq!(out.len(), 3),
        Err(_) => panic!("a materialized snapshot must succeed"),
    }
}

#[test]
fn empty_snapshot_is_success() {
    let fine: Result<Vec<RawEntry>, i32> = Ok(Vec::new());
    match collect_all(fine) {
        Ok(out) => assert!(out.is_empty()),
        Err(_) => panic!("an empty snapshot is not an error"),
    }
}

#[test]
fn flags_pass_through_unmodified() {
    let flags = 0xdead_beef_u64;
    let entries = vec![entry(
        "eth0",
        Some(v4_raw(10, 0, 0, 1)),
        Some(v4_raw(255, 0, 0, 0)),
        flags,
        true,
    )];
    let out = list_all_from(&entries);
    assert_eq!(out[0].flags(), flags);
}
