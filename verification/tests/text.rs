use peachps::internet::arp::ARPHeader;
use peachps::internet::ip::{IPHeader, IPv4Addr};
use peachps::link::ethernet::FrameHeader;
use peachps::link::MacAddress;
use peachps::text::{
    digit, field, parse_octets, push_bin, push_dec, push_dec_list, push_hex, push_line,
    push_line_bin, push_line_dec, push_line_hex,
};
use peachps::transport::icmp::Message;
use peachps::transport::tcp::SegmentHeader;

#[test]
fn mac_text_round_trip() {
    let addr = MacAddress([0x00, 0x1f, 0xa0, 0xff, 0x09, 0xbc]);
    assert_eq!("00:1f:a0:ff:09:bc", addr.to_string());
    assert_eq!(Some(addr), MacAddress::parse(&addr.to_string()));
}

#[test]
fn mac_address_accepts_upper_case_and_single_digits() {
    assert_eq!(
        Some(MacAddress([0x0c, 0xa2, 0x38, 0x4e, 0x5a, 0x0c])),
        MacAddress::parse("C:A2:38:4E:5a:c")
    );
}

#[test]
fn mac_address_refuses_other_text() {
    assert_eq!(None, MacAddress::parse(""));
    assert_eq!(None, MacAddress::parse("0c:22:38:4e:5a"));
    assert_eq!(None, MacAddress::parse("0c:22:38:4e:5a:0c:01"));
    assert_eq!(None, MacAddress::parse("0c:22:38:4e:5a:0c:"));
    assert_eq!(None, MacAddress::parse("0c:22:38:4e:5a:0g"));
    assert_eq!(None, MacAddress::parse("0c:22:38:4e:5a:00c"));
    assert_eq!(None, MacAddress::parse("0c-22-38-4e-5a-0c"));
    assert_eq!(None, MacAddress::parse("0c::38:4e:5a:0c"));
}

#[test]
fn ip_text_round_trip() {
    let addr = IPv4Addr(0xc0a80003);
    assert_eq!("192.168.0.3", addr.to_string());
    assert_eq!(Some(addr), IPv4Addr::parse("192.168.0.3"));
    assert_eq!("0.0.0.0", IPv4Addr(0).to_string());
    assert_eq!("255.255.255.255", IPv4Addr(0xffff_ffff).to_string());
    assert_eq!("10.100.9.99", IPv4Addr(0x0a640963).to_string());
}

#[test]
fn ip_address_refuses_other_text() {
    assert_eq!(None, IPv4Addr::parse(""));
    assert_eq!(None, IPv4Addr::parse("192.168.11"));
    assert_eq!(None, IPv4Addr::parse("192.168.11.3.4"));
    assert_eq!(None, IPv4Addr::parse("192.168.11.256"));
    assert_eq!(None, IPv4Addr::parse("192.168.11.1000"));
    assert_eq!(None, IPv4Addr::parse("192.168.11.a"));
    assert_eq!(None, IPv4Addr::parse("192.168..3"));
    assert_eq!(None, IPv4Addr::parse("192.168.11.3 "));
    assert_eq!(Some(IPv4Addr(0x01020304)), IPv4Addr::parse("001.02.3.4"));
}

#[test]
fn digits_have_their_values() {
    assert_eq!(Some(0), digit('0', false));
    assert_eq!(Some(9), digit('9', true));
    assert_eq!(Some(10), digit('a', true));
    assert_eq!(Some(15), digit('F', true));
    assert_eq!(None, digit('a', false));
    assert_eq!(None, digit('g', true));
    assert_eq!(None, digit(':', true));
}

#[test]
fn fields_end_where_the_digits_end() {
    assert_eq!(Some((0x0c, 2)), field("0c:22", 0, true));
    assert_eq!(Some((0x22, 5)), field("0c:22", 3, true));
    assert_eq!(Some((255, 3)), field("255.1", 0, false));
    assert_eq!(None, field("256.1", 0, false));
    assert_eq!(None, field("0c:22", 2, true));
    assert_eq!(None, field("0c:22", 9, true));
}

#[test]
fn octets_fill_the_text() {
    assert_eq!(Some(vec![1, 2, 3]), parse_octets("1.2.3", 3, '.', false));
    assert_eq!(None, parse_octets("1.2.3", 2, '.', false));
    assert_eq!(None, parse_octets("1.2.3", 4, '.', false));
    assert_eq!(None, parse_octets("1.2.3", 0, '.', false));
}

#[test]
fn numbers_in_three_notations() {
    let mut text = String::from("n=");
    push_dec(&mut text, 0);
    assert_eq!("n=0", text);
    push_dec(&mut text, 65535);
    assert_eq!("n=065535", text);
    let mut text = String::new();
    push_dec(&mut text, u64::MAX);
    assert_eq!("18446744073709551615", text);
    let mut text = String::new();
    push_hex(&mut text, 0);
    push_hex(&mut text, 0x5);
    push_hex(&mut text, 0xc0a80b03);
    assert_eq!("05c0a80b03", text);
    let mut text = String::new();
    push_bin(&mut text, 0);
    push_bin(&mut text, 1);
    push_bin(&mut text, 0b10010);
    assert_eq!("0110010", text);
}

#[test]
fn lists_and_lines() {
    let mut text = String::new();
    push_dec_list(&mut text, &[]);
    assert_eq!("[]", text);
    push_dec_list(&mut text, &[7]);
    assert_eq!("[][7]", text);
    let mut text = String::new();
    push_dec_list(&mut text, &[0, 10, 255]);
    assert_eq!(format!("{:?}", [0u8, 10, 255]), text);
    let mut text = String::new();
    push_line(&mut text, "a: ", "b");
    push_line_dec(&mut text, "c: ", 12);
    push_line_hex(&mut text, "d: 0x", 255);
    push_line_bin(&mut text, "e: 0b", 5);
    assert_eq!("a: b\nc: 12\nd: 0xff\ne: 0b101\n", text);
}

#[test]
fn headers_as_text() {
    let frame = [
        0xa8, 0x5e, 0x45, 0x2f, 0x94, 0x2e, 0x18, 0xec, 0xe7, 0x56, 0x5e, 0x60, 0x08, 0x06,
    ];
    let (header, _) = FrameHeader::new_from_bytes(&frame, ()).unwrap();
    assert_eq!(
        "dst_addr: a8:5e:45:2f:94:2e\nsrc_addr: 18:ec:e7:56:5e:60\nframe_type: ARP\n",
        header.to_string()
    );

    let request = [
        0x00, 0x01, 0x08, 0x00, 0x06, 0x04, 0x00, 0x01, 0x18, 0xec, 0xe7, 0x56, 0x5e, 0x60, 0xc0,
        0xa8, 0x0b, 0x01, 0x00, 0x00, 0x00, 0x00, 0x00, 0x00, 0xc0, 0xa8, 0x0b, 0x03,
    ];
    let header = ARPHeader::new_from_bytes(&request, ()).unwrap();
    assert_eq!(
        "Hardware Address Space: Ethernet\n\
         Protocol Address Space: IP\n\
         Hardware Address Length: 6\n\
         Protocol Address Length: 4\n\
         Operation: ARP Request\n\
         Source Hardware Address: 18:ec:e7:56:5e:60\n\
         Source Protocol Address: 192.168.11.1\n\
         Destination Hardware Address: 00:00:00:00:00:00\n\
         Destination Protocol Address: 192.168.11.3\n",
        header.to_string()
    );

    let packet = [
        0x45, 0x00, 0x00, 0x3c, 0x19, 0x17, 0x40, 0x05, 0x40, 0x01, 0xca, 0x55, 0xc0, 0xa8, 0x0b,
        0x01, 0xc0, 0xa8, 0x0b, 0x03,
    ];
    let header = IPHeader::new_from_bytes(&packet, ()).unwrap();
    assert_eq!(
        "version: 4\n\
         header_length (bytes): 20\n\
         service_type: 0\n\
         total_length (bytes): 60\n\
         identification: 6423\n\
         flag: 10\n\
         fragment offset: 5\n\
         time to live: 64\n\
         transport protocol: ICMP\n\
         checksum: 51797\n\
         src_addr: 192.168.11.1\n\
         dst_addr: 192.168.11.3\n",
        header.to_string()
    );

    let message = Message::new_from_bytes(&[0x08, 0x00, 0xf7, 0xf9, 0x00, 0x01, 0x00, 0x05, 9], ())
        .unwrap();
    let mut data = [0u8; 32];
    data[0] = 9;
    assert_eq!(
        format!(
            "Type: Echo Request\nCode: 0\nChecksum: 63481\nIdentifier: 1\nSequence: 5\nData: {:?}\n",
            data
        ),
        message.to_string()
    );
    let message = Message::new_from_bytes(&[0x0b, 0x01, 0x00, 0x02], ()).unwrap();
    assert_eq!("Type: Time Exceeded\nCode: 1\nChecksum: 2\n", message.to_string());

    let segment = [
        0x9c, 0x40, 0x00, 0x50, 0x00, 0x00, 0x00, 0x64, 0xff, 0xff, 0xff, 0xff, 0x50, 0x12, 0x04,
        0x00, 0xfa, 0xe8, 0x00, 0x07,
    ];
    let header = SegmentHeader::new_from_bytes(&segment, ()).unwrap();
    assert_eq!(
        "Src Port: 40000\n\
         Dst Port: 80\n\
         Sequence: 100\n\
         Acknowleage: 4294967295\n\
         Offset: 0x5\n\
         Control Flag: 0b10010\n\
         Window Size: 1024\n\
         Checksum: 64232\n\
         Urgent Pointer: 7\n",
        header.to_string()
    );
}
