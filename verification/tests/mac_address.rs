use peachps::link::MacAddress;

#[test]
fn mac_address_display_address_test() {
    let addr = MacAddress([12, 34, 56, 78, 90, 12]);
    assert_eq!("0c:22:38:4e:5a:0c", addr.to_string());
}

#[test]
fn mac_address_address_from_str_test() {
    let addr = MacAddress::parse("0c:22:38:4e:5a:0c").unwrap();
    assert_eq!(MacAddress([12, 34, 56, 78, 90, 12]), addr);
}

#[test]
fn into_test() {
    let addr = MacAddress([0x12, 0x34, 0x56, 0x78, 0x90, 0x12]);
    assert_eq!(0x123456789012 as u64, addr.into());
}
