use peachps::internet::InternetProtocol;
use peachps::link::ethernet::{ethernet_frame_for_me, rx, tx, FrameHeader};
use peachps::link::{LinkProtocol, LinkProtocolError, MacAddress};
use peachps::option::PeachPSOption;
use peachps::Items;

const OUR_MAC: MacAddress = MacAddress([0xa8, 0x5e, 0x45, 0x2f, 0x94, 0x2e]);
const HOST_MAC: MacAddress = MacAddress([0x18, 0xec, 0xe7, 0x56, 0x5e, 0x60]);

fn ethernet_stack() -> Items {
    let mut opt = PeachPSOption::default();
    opt.dev_addr = OUR_MAC;
    Items::new(opt)
}

#[test]
fn frame_header_round_trip() {
    let header = FrameHeader { dst_addr: OUR_MAC, src_addr: HOST_MAC, ty: InternetProtocol::IPv6 };
    let bytes = header.to_bytes(()).unwrap();
    assert_eq!(
        vec![0xa8, 0x5e, 0x45, 0x2f, 0x94, 0x2e, 0x18, 0xec, 0xe7, 0x56, 0x5e, 0x60, 0x86, 0xdd],
        bytes
    );
    assert_eq!(Ok((header, vec![])), FrameHeader::new_from_bytes(&bytes, ()));
    assert_eq!(FrameHeader::LENGTH, bytes.len());
}

#[test]
fn frame_header_needs_fourteen_bytes() {
    let raw = [0xa8, 0x5e, 0x45, 0x2f, 0x94, 0x2e, 0x18, 0xec, 0xe7, 0x56, 0x5e, 0x60, 0x08];
    assert_eq!(
        Err(LinkProtocolError::CannotParseFrameHeader),
        FrameHeader::new_from_bytes(&raw, LinkProtocolError::CannotParseFrameHeader)
    );
    assert_eq!(
        Err(LinkProtocolError::CannotParseFrameHeader),
        FrameHeader::new_from_bytes(&[], LinkProtocolError::CannotParseFrameHeader)
    );
}

#[test]
fn frame_header_needs_a_known_ethertype() {
    let raw = [
        0xa8, 0x5e, 0x45, 0x2f, 0x94, 0x2e, 0x18, 0xec, 0xe7, 0x56, 0x5e, 0x60, 0x08, 0x01, 0x00,
    ];
    assert_eq!(
        Err(LinkProtocolError::CannotParseFrameHeader),
        FrameHeader::new_from_bytes(&raw, LinkProtocolError::CannotParseFrameHeader)
    );
}

#[test]
fn frame_header_default() {
    let header = FrameHeader::default();
    assert_eq!(MacAddress([0; 6]), header.dst_addr);
    assert_eq!(MacAddress([0; 6]), header.src_addr);
    assert_eq!(InternetProtocol::IP, header.ty);
}

#[test]
fn frame_is_for_the_device_or_for_everybody() {
    assert!(ethernet_frame_for_me(OUR_MAC, OUR_MAC));
    assert!(ethernet_frame_for_me(OUR_MAC, MacAddress::broadcast()));
    assert!(!ethernet_frame_for_me(OUR_MAC, HOST_MAC));
    assert!(!ethernet_frame_for_me(OUR_MAC, MacAddress::zero()));
    assert_eq!(MacAddress([0xff; 6]), MacAddress::broadcast());
    assert_eq!(MacAddress([0x00; 6]), MacAddress::zero());
    assert_eq!(MacAddress([0x00; 6]), MacAddress::default());
}

#[test]
fn rx_accepts_a_frame_for_the_device() {
    let items = ethernet_stack();
    let raw = [
        0xa8, 0x5e, 0x45, 0x2f, 0x94, 0x2e, 0x18, 0xec, 0xe7, 0x56, 0x5e, 0x60, 0x08, 0x00, 0x01,
        0x02, 0x03,
    ];
    let (header, rest) = rx(&items, &raw).unwrap();
    assert_eq!(OUR_MAC, header.dst_addr);
    assert_eq!(HOST_MAC, header.src_addr);
    assert_eq!(InternetProtocol::IP, header.ty);
    assert_eq!(vec![0x01, 0x02, 0x03], rest);
}

#[test]
fn rx_accepts_a_broadcast_frame() {
    let items = ethernet_stack();
    let raw = [
        0xff, 0xff, 0xff, 0xff, 0xff, 0xff, 0x18, 0xec, 0xe7, 0x56, 0x5e, 0x60, 0x08, 0x06, 0x09,
    ];
    let (header, rest) = rx(&items, &raw).unwrap();
    assert_eq!(MacAddress::broadcast(), header.dst_addr);
    assert_eq!(InternetProtocol::ARP, header.ty);
    assert_eq!(vec![0x09], rest);
}

#[test]
fn rx_drops_a_frame_for_another_station() {
    let items = ethernet_stack();
    let raw = [
        0x18, 0xec, 0xe7, 0x56, 0x5e, 0x60, 0xa8, 0x5e, 0x45, 0x2f, 0x94, 0x2e, 0x08, 0x00, 0x01,
    ];
    assert_eq!(Err(LinkProtocolError::Ignore), rx(&items, &raw));
}

#[test]
fn rx_fails_on_a_short_frame() {
    let items = ethernet_stack();
    assert_eq!(Err(LinkProtocolError::CannotParseFrameHeader), rx(&items, &[0xff; 13]));
}

#[test]
fn tx_puts_the_header_before_the_payload() {
    let items = ethernet_stack();
    let frame = tx(&items, InternetProtocol::ARP, HOST_MAC, vec![0xde, 0xad]).unwrap();
    assert_eq!(
        vec![
            0x18, 0xec, 0xe7, 0x56, 0x5e, 0x60, 0xa8, 0x5e, 0x45, 0x2f, 0x94, 0x2e, 0x08, 0x06,
            0xde, 0xad
        ],
        frame
    );
}

#[test]
fn link_rx_notes_sender_and_protocol() {
    let items = ethernet_stack();
    let raw = [
        0xa8, 0x5e, 0x45, 0x2f, 0x94, 0x2e, 0x18, 0xec, 0xe7, 0x56, 0x5e, 0x60, 0x08, 0x06, 0x07,
    ];
    let (result, rest) = peachps::link::rx(&items, LinkProtocol::Ethernet, &raw).unwrap();
    assert_eq!(HOST_MAC, result.src_mac_addr);
    assert_eq!(InternetProtocol::ARP, result.ip_type);
    assert_eq!(0, result.message_len);
    assert_eq!(vec![0x07], rest);
    let other = [
        0x00, 0x5e, 0x45, 0x2f, 0x94, 0x2e, 0x18, 0xec, 0xe7, 0x56, 0x5e, 0x60, 0x08, 0x06, 0x07,
    ];
    assert_eq!(
        Err(LinkProtocolError::Ignore),
        peachps::link::rx(&items, LinkProtocol::Ethernet, &other)
    );
}
