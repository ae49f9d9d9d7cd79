//! Values as text.

use dlep::proto::error::ExpectedLen;
use dlep::proto::mac::MacAddress;

#[test]
fn mac_address_is_hex_with_colons() {
    let mac = MacAddress::new_eui48([0xde, 0xad, 0xbe, 0xef, 0x00, 0x01]);
    assert_eq!(mac.to_text(), "de:ad:be:ef:00:01");
    assert_eq!(
        MacAddress::Eui48(MacAddress::BROADCAST).to_text(),
        "ff:ff:ff:ff:ff:ff"
    );
    let long = MacAddress::new_eui64([0, 1, 2, 3, 4, 5, 6, 0x9f]);
    assert_eq!(long.to_text(), "00:01:02:03:04:05:06:9f");
}

#[test]
fn mac_address_names_its_type_in_diagnostics() {
    let mac = MacAddress::new_eui48([0xde, 0xad, 0xbe, 0xef, 0x00, 0x01]);
    assert_eq!(mac.to_debug_text(), "MacAddress(de:ad:be:ef:00:01)");
    assert_eq!(format!("{mac:?}"), "MacAddress(de:ad:be:ef:00:01)");
    assert_eq!(format!("<{:?}>", Some(mac)), "<Some(MacAddress(de:ad:be:ef:00:01))>");
    let long = MacAddress::new_eui64([0, 1, 2, 3, 4, 5, 6, 0x9f]);
    assert_eq!(format!("{long:?}"), "MacAddress(00:01:02:03:04:05:06:9f)");
}

#[test]
fn expected_length_says_what_is_permitted() {
    assert_eq!(ExpectedLen::Exact(2).to_text(), "2");
    assert_eq!(ExpectedLen::Exact(65_535).to_text(), "65535");
    assert_eq!(ExpectedLen::AtLeast(1).to_text(), "at least 1");
    assert_eq!(ExpectedLen::OneOf(&[5, 7]).to_text(), "one of [5, 7]");
    assert_eq!(ExpectedLen::OneOf(&[17, 19, 0]).to_text(), "one of [17, 19, 0]");
    assert_eq!(ExpectedLen::OneOf(&[]).to_text(), "one of []");
    assert_eq!(ExpectedLen::Multiple(2).to_text(), "a multiple of 2");
}
