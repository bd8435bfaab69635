use icmpv6_decoder::addr::IPv6Address;
use icmpv6_decoder::icmpv6::ICMPv6;
use icmpv6_decoder::icmpv6::Icmpv6Type;
use icmpv6_decoder::icmpv6::Icmpv6Unsupported;

fn addr_text(bytes: [u8; 16]) -> String {
    IPv6Address::new(bytes.to_vec()).to_text()
}

#[test]
fn address_all_zero_renders_as_double_colon() {
    assert_eq!(addr_text([0; 16]), "::");
}

#[test]
fn address_loopback_renders_compressed() {
    let mut b = [0u8; 16];
    b[15] = 1;
    assert_eq!(addr_text(b), "::1");
}

#[test]
fn address_single_zero_group_is_not_compressed() {
    let b = [
        0x20, 0x01, 0x0d, 0xb8, 0x00, 0x00, 0x00, 0x01, 0x00, 0x01, 0x00, 0x01, 0x00, 0x01, 0x00,
        0x01,
    ];
    assert_eq!(addr_text(b), "2001:db8:0:1:1:1:1:1");
}

#[test]
fn address_without_zero_groups_renders_in_full() {
    let b = [
        0x01, 0x02, 0x03, 0x04, 0x05, 0x06, 0x07, 0x08, 0x09, 0x0a, 0x0b, 0x0c, 0x0d, 0x0e, 0x0f,
        0x10,
    ];
    assert_eq!(addr_text(b), "102:304:506:708:90a:b0c:d0e:f10");
}

#[test]
fn address_leftmost_of_equal_zero_runs_is_compressed() {
    let b = [
        0x00, 0x01, 0x00, 0x00, 0x00, 0x00, 0x00, 0x02, 0x00, 0x00, 0x00, 0x00, 0x00, 0x03, 0x00,
        0x04,
    ];
    assert_eq!(addr_text(b), "1::2:0:0:3:4");
}

#[test]
fn address_longer_right_run_wins_over_shorter_left_run() {
    let b = [
        0x00, 0x01, 0x00, 0x00, 0x00, 0x00, 0x00, 0x02, 0x00, 0x00, 0x00, 0x00, 0x00, 0x00, 0x00,
        0x04,
    ];
    assert_eq!(addr_text(b), "1:0:0:2::4");
}

#[test]
fn address_groups_use_lowercase_hex_without_leading_zeros() {
    let b = [
        0xfe, 0x80, 0x00, 0x00, 0x00, 0x00, 0x00, 0x00, 0x02, 0x0c, 0x29, 0xff, 0xfe, 0xfc, 0x2c,
        0x3b,
    ];
    assert_eq!(addr_text(b), "fe80::20c:29ff:fefc:2c3b");
}

#[test]
fn checksum_text_keeps_leading_zeros() {
    let mut icmpv6 = ICMPv6::creator();
    let bytes = vec![1u8, 0, 0x00, 0x0a, 0, 0, 0, 0];
    assert!(icmpv6.decode_bytes(&bytes).is_ok());
    assert_eq!(icmpv6.checksum_text(), "0x000a");
}

#[test]
fn empty_raw_remainder_is_omitted_from_rendering() {
    let u = Icmpv6Unsupported {
        unsupported: vec![],
    };
    assert!(u.rendered().is_none());
    let u = Icmpv6Unsupported {
        unsupported: vec![0x0f, 0xa0],
    };
    assert_eq!(u.rendered().unwrap(), "0fa0");
}

#[test]
fn unsupported_rendering_matches_raw_bytes() {
    let bytes = vec![16u8, 0, 0, 0, 0xde, 0xad, 0xbe, 0xef, 0x01];
    let mut icmpv6 = ICMPv6::creator();
    assert!(icmpv6.decode_bytes(&bytes).is_ok());
    match &icmpv6.rest_of_header {
        Icmpv6Type::Unsupported(u) => assert_eq!(u.rendered().unwrap(), "deadbeef01"),
        other => panic!("{:#?}", other),
    }
}

#[test]
fn protocol_names_are_stable() {
    let icmpv6 = ICMPv6::creator();
    assert_eq!(icmpv6.name(), "ICMPV6");
    assert_eq!(icmpv6.short_name(), "icmpv6");
}
