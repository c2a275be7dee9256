use netif::{
    decode_ip, decode_mac, decode_scope, encode_ip, list_all_from, mac_hex, netmask_from_prefix,
    wide_name, IpAddr, RawAddress, RawEntry, FAMILY_INET6, FAMILY_LINK, FLAG_UP,
};

#[test]
fn cidr_of_common_v4_mask() {
    let entries = vec![RawEntry {
        name: b"eth0".to_vec(),
        addr: Some(encode_ip(&IpAddr::v4(192, 168, 0, 42))),
        netmask: Some(encode_ip(&IpAddr::v4(255, 255, 255, 0))),
        flags: FLAG_UP,
        up: true,
    }];
    let out = list_all_from(&entries);
    assert_eq!(out.len(), 1);
    let (address, range) = out[0].cidr();
    assert_eq!(*address, IpAddr::v4(192, 168, 0, 42));
    assert_eq!(range, 24);
}

#[test]
fn netmask_from_prefix_values() {
    assert_eq!(netmask_from_prefix(24, false), IpAddr::V4(0xffff_ff00));
    assert_eq!(netmask_from_prefix(8, false), IpAddr::V4(0xff00_0000));
    assert_eq!(netmask_from_prefix(0, false), IpAddr::V4(0));
    assert_eq!(netmask_from_prefix(32, false), IpAddr::V4(u32::MAX));
    assert_eq!(netmask_from_prefix(40, false), IpAddr::V4(u32::MAX));
    assert_eq!(
        netmask_from_prefix(64, true),
        IpAddr::V6(0xffff_ffff_ffff_ffff_0000_0000_0000_0000)
    );
    assert_eq!(netmask_from_prefix(128, true), IpAddr::V6(u128::MAX));
    assert_eq!(netmask_from_prefix(0, true), IpAddr::V6(0));
}

#[test]
fn derived_netmask_round_trips_through_cidr() {
    for (prefix, v6) in [(0u8, false), (9, false), (24, false), (31, false), (32, false),
        (0, true), (1, true), (64, true), (97, true), (128, true)]
    {
        let mask = netmask_from_prefix(prefix, v6);
        let addr = if v6 {
            IpAddr::v6([0xfe80, 0, 0, 0, 0, 0, 0, 1])
        } else {
            IpAddr::v4(10, 0, 0, 1)
        };
        let entries = vec![RawEntry {
            name: b"adapter0".to_vec(),
            addr: Some(encode_ip(&addr)),
            netmask: Some(encode_ip(&mask)),
            flags: FLAG_UP,
            up: true,
        }];
        let out = list_all_from(&entries);
        assert_eq!(out.len(), 1);
        assert_eq!(out[0].cidr().1, prefix);
    }
}

#[test]
fn encode_then_decode_is_identity() {
    for addr in [
        IpAddr::v4(0, 0, 0, 0),
        IpAddr::v4(127, 0, 0, 1),
        IpAddr::v4(255, 255, 255, 255),
        IpAddr::v6([0; 8]),
        IpAddr::v6([0xfe80, 0, 0, 0, 0x1234, 0x5678, 0x9abc, 1]),
        IpAddr::V6(u128::MAX),
    ] {
        let raw = encode_ip(&addr);
        assert_eq!(decode_ip(&raw), Some(addr));
        if addr.is_v6() {
            assert_eq!(decode_scope(&raw), Some(0));
        } else {
            assert_eq!(decode_scope(&raw), None);
        }
    }
}

#[test]
fn v4_bytes_decode_big_endian() {
    let raw = encode_ip(&IpAddr::v4(192, 168, 0, 42));
    assert_eq!(raw.data, vec![192, 168, 0, 42]);
    assert_eq!(decode_ip(&raw), Some(IpAddr::V4(0xc0a8_002a)));
}

#[test]
fn short_buffers_are_rejected() {
    let short6 = RawAddress {
        family: FAMILY_INET6,
        data: vec![0xfe, 0x80, 0, 0],
    };
    assert_eq!(decode_ip(&short6), None);
    assert_eq!(decode_scope(&short6), None);
    let short_link = RawAddress {
        family: FAMILY_LINK,
        data: vec![6, 1, 2],
    };
    assert_eq!(decode_mac(&short_link), None);
}

#[test]
fn link_decode_takes_declared_length() {
    let raw = RawAddress {
        family: FAMILY_LINK,
        data: vec![6, 0x00, 0x1b, 0x44, 0x11, 0x3a, 0xb7, 0xff],
    };
    assert_eq!(decode_mac(&raw), Some([0x00, 0x1b, 0x44, 0x11, 0x3a, 0xb7]));
    let other_len = RawAddress {
        family: FAMILY_LINK,
        data: vec![8, 1, 2, 3, 4, 5, 6, 7, 8],
    };
    assert_eq!(decode_mac(&other_len), None);
}

#[test]
fn mac_hex_formats() {
    assert_eq!(mac_hex([0x00, 0x1b, 0x44, 0x11, 0x3a, 0xb7]), "00:1b:44:11:3a:b7");
    assert_eq!(mac_hex([0; 6]), "00:00:00:00:00:00");
    assert_eq!(mac_hex([0xff; 6]), "ff:ff:ff:ff:ff:ff");
}

#[test]
fn wide_name_truncates_at_terminator() {
    let mut units: Vec<u16> = "eth0".encode_utf16().collect();
    units.push(0);
    units.extend_from_slice(&[0x6a, 0x75, 0x6e, 0x6b]);
    assert_eq!(wide_name(&units), "eth0");
    let unterminated: Vec<u16> = "lo".encode_utf16().collect();
    assert_eq!(wide_name(&unterminated), "lo");
    assert_eq!(wide_name(&Vec::new()), "");
}
