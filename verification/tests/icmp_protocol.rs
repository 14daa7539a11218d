use peachps::checksum::calculate_checksum_u16;
use peachps::internet::ip::IPv4Addr;
use peachps::link::MacAddress;
use peachps::option::PeachPSOption;
use peachps::transport::icmp::{rx, tx, Message, MessageData, MessageType};
use peachps::transport::{TransportProtocol, TransportProtocolError};
use peachps::{Items, Outbound, RxResult};

const OUR_MAC: MacAddress = MacAddress([0xa8, 0x5e, 0x45, 0x2f, 0x94, 0x2e]);
const HOST_MAC: MacAddress = MacAddress([0x18, 0xec, 0xe7, 0x56, 0x5e, 0x60]);
const OUR_IP: IPv4Addr = IPv4Addr(0xc0a80b03);
const HOST_IP: IPv4Addr = IPv4Addr(0xc0a80b01);

fn echo_stack() -> Items {
    let mut opt = PeachPSOption::default();
    opt.dev_addr = OUR_MAC;
    opt.ip_addr = OUR_IP;
    opt.network_mask = IPv4Addr(0xffffff00);
    let mut items = Items::new(opt);
    items.arp_table.insert(HOST_IP.0, HOST_MAC);
    items
}

fn echo_request(checksum: [u8; 2]) -> Vec<u8> {
    let mut message = vec![0x08, 0x00, checksum[0], checksum[1], 0x00, 0x01, 0x00, 0x05];
    message.extend_from_slice(&[0x00; 32]);
    message
}

fn from_host(message_len: usize) -> RxResult {
    let mut rx_result = RxResult::default();
    rx_result.src_mac_addr = HOST_MAC;
    rx_result.src_ip_addr = HOST_IP;
    rx_result.tp_type = TransportProtocol::ICMP;
    rx_result.message_len = message_len;
    rx_result
}

#[test]
fn message_round_trip() {
    let mut raw_data = [0u8; 32];
    for (i, byte) in raw_data.iter_mut().enumerate() {
        *byte = i as u8 + 1;
    }
    let message = Message {
        ty: MessageType::EchoRequest,
        code: 3,
        checksum: 0xbeef,
        data: MessageData::Echo { identifier: 0x0102, sequence_number: 0x0304, raw_data },
    };
    let bytes = message.to_bytes(()).unwrap();
    assert_eq!(40, bytes.len());
    assert_eq!(&[0x08, 0x03, 0xbe, 0xef, 0x01, 0x02, 0x03, 0x04, 0x01, 0x02], &bytes[..10]);
    assert_eq!(0x20, bytes[39]);
    assert_eq!(Ok(message), Message::new_from_bytes(&bytes, ()));
    let bare = Message {
        ty: MessageType::TimeExceeded,
        code: 1,
        checksum: 0x0a0b,
        data: MessageData::Empty,
    };
    assert_eq!(Ok(vec![0x0b, 0x01, 0x0a, 0x0b]), bare.to_bytes(()));
    assert_eq!(Ok(bare), Message::new_from_bytes(&[0x0b, 0x01, 0x0a, 0x0b], ()));
}

#[test]
fn message_default() {
    let message = Message::default();
    assert_eq!(MessageType::EchoReply, message.ty);
    assert_eq!(0, message.code);
    assert_eq!(0, message.checksum);
    assert_eq!(MessageData::Empty, message.data);
    assert_eq!(4, Message::LENGTH);
}

#[test]
fn echo_data_is_padded_with_zeros_and_cut_at_thirty_two_bytes() {
    let short = [0x08, 0x00, 0x00, 0x00, 0x00, 0x01, 0x00, 0x05, 0xaa, 0xbb];
    let mut padded = [0u8; 32];
    padded[0] = 0xaa;
    padded[1] = 0xbb;
    assert_eq!(
        MessageData::Echo { identifier: 1, sequence_number: 5, raw_data: padded },
        Message::new_from_bytes(&short, ()).unwrap().data
    );
    let mut long = vec![0x08, 0x00, 0x00, 0x00, 0x00, 0x01, 0x00, 0x05];
    long.extend_from_slice(&[0x77; 40]);
    assert_eq!(
        MessageData::Echo { identifier: 1, sequence_number: 5, raw_data: [0x77; 32] },
        Message::new_from_bytes(&long, ()).unwrap().data
    );
}

#[test]
fn message_that_is_too_short_or_of_unknown_type_cannot_be_parsed() {
    assert_eq!(Err(1), Message::new_from_bytes(&[0x08, 0x00, 0x00], 1));
    assert_eq!(Err(2), Message::new_from_bytes(&[0x08, 0x00, 0x00, 0x00, 0x00, 0x01, 0x00], 2));
    assert_eq!(Err(3), Message::new_from_bytes(&[0x09, 0x00, 0x00, 0x00], 3));
    assert!(Message::new_from_bytes(&[0x03, 0x00, 0x00, 0x00], 3).is_ok());
}

#[test]
fn echo_request_is_answered_with_an_echo_reply() {
    let items = echo_stack();
    let request = echo_request([0xf7, 0xf9]);
    let (header, rest, outbound) = rx(&items, from_host(40), &request, 0x1234).unwrap();
    assert_eq!(MessageType::EchoRequest, header.ty);
    assert_eq!(0xf7f9, header.checksum);
    assert_eq!(36, rest.len());
    let frame = match outbound {
        Some(Outbound::Frame { frame }) => frame,
        other => panic!("{:?}", other),
    };
    let mut expected = vec![
        0x18, 0xec, 0xe7, 0x56, 0x5e, 0x60, 0xa8, 0x5e, 0x45, 0x2f, 0x94, 0x2e, 0x08, 0x00, 0x45,
        0x00, 0x00, 0x3c, 0x12, 0x34, 0x00, 0x00, 0xff, 0x01, 0x12, 0x38, 0xc0, 0xa8, 0x0b, 0x03,
        0xc0, 0xa8, 0x0b, 0x01, 0x00, 0x00, 0xff, 0xf9, 0x00, 0x01, 0x00, 0x05,
    ];
    expected.extend_from_slice(&[0x00; 32]);
    assert_eq!(expected, frame);
    assert_eq!(Ok(0), calculate_checksum_u16(&frame[14..], 20, ()));
    assert_eq!(Ok(0), calculate_checksum_u16(&frame[34..], 40, ()));
}

#[test]
fn echo_request_with_a_checksum_over_the_header_alone_is_refused() {
    let items = echo_stack();
    let request = echo_request([0xf7, 0xff]);
    assert_eq!(
        Err(TransportProtocolError::InvalidChecksum),
        rx(&items, from_host(40), &request, 1)
    );
}

#[test]
fn echo_reply_repeats_code_identifier_sequence_number_and_data() {
    let items = echo_stack();
    let mut request = vec![0x08, 0x07, 0x00, 0x00, 0xab, 0xcd, 0x12, 0x34];
    for i in 0..32u8 {
        request.push(i.wrapping_mul(7));
    }
    let c = calculate_checksum_u16(&request, 40, ()).unwrap();
    request[2] = (c >> 8) as u8;
    request[3] = (c & 0xff) as u8;
    let (_, _, outbound) = rx(&items, from_host(40), &request, 9).unwrap();
    let frame = match outbound {
        Some(Outbound::Frame { frame }) => frame,
        other => panic!("{:?}", other),
    };
    let reply = &frame[34..];
    assert_eq!(0x00, reply[0]);
    assert_eq!(0x07, reply[1]);
    assert_eq!(&request[4..], &reply[4..]);
    assert_eq!(Ok(0), calculate_checksum_u16(reply, 40, ()));
}

#[test]
fn message_ends_where_the_packet_says() {
    let items = echo_stack();
    let mut padded = echo_request([0xf7, 0xf9]);
    padded.extend_from_slice(&[0xee; 6]);
    assert!(rx(&items, from_host(40), &padded, 1).is_ok());
    assert_eq!(
        Err(TransportProtocolError::InvalidChecksum),
        rx(&items, from_host(46), &padded, 1)
    );
    assert_eq!(
        Err(TransportProtocolError::CannotParseICMPMessage),
        rx(&items, from_host(0), &padded, 1)
    );
    assert!(rx(&items, from_host(4000), &echo_request([0xf7, 0xf9]), 1).is_ok());
}

#[test]
fn other_messages_are_passed_up_and_not_answered() {
    let items = echo_stack();
    let mut reply = vec![0x00, 0x00, 0xff, 0xf9, 0x00, 0x01, 0x00, 0x05];
    reply.extend_from_slice(&[0x00; 32]);
    let (header, rest, outbound) = rx(&items, from_host(40), &reply, 1).unwrap();
    assert_eq!(MessageType::EchoReply, header.ty);
    assert_eq!(36, rest.len());
    assert_eq!(None, outbound);
    let unreachable = [0x03, 0x01, 0xfc, 0xfe, 0x00, 0x00, 0x00, 0x00];
    let (header, rest, outbound) = rx(&items, from_host(8), &unreachable, 1).unwrap();
    assert_eq!(MessageType::DestinationUnreachable, header.ty);
    assert_eq!(MessageData::Empty, header.data);
    assert_eq!(vec![0x00; 4], rest);
    assert_eq!(None, outbound);
}

#[test]
fn answer_to_an_unknown_address_waits_for_its_resolution() {
    let mut items = echo_stack();
    items.arp_table.clear();
    let (_, _, outbound) = rx(&items, from_host(40), &echo_request([0xf7, 0xf9]), 1).unwrap();
    match outbound {
        Some(Outbound::Resolve { resolution, packet, .. }) => {
            assert_eq!(HOST_IP, resolution.target);
            assert_eq!(60, packet.len());
        }
        other => panic!("{:?}", other),
    }
}

#[test]
fn answer_is_built_from_what_was_received() {
    let items = echo_stack();
    let received = Message {
        ty: MessageType::EchoRequest,
        code: 0,
        checksum: 0x1111,
        data: MessageData::Echo { identifier: 1, sequence_number: 5, raw_data: [0; 32] },
    };
    let frame = match tx(&items, MessageType::EchoReply, received, from_host(40), 0x1234).unwrap()
    {
        Outbound::Frame { frame } => frame,
        other => panic!("{:?}", other),
    };
    assert_eq!(&[0x00, 0x00, 0xff, 0xf9, 0x00, 0x01, 0x00, 0x05], &frame[34..42]);
    let mut unassigned = from_host(40);
    unassigned.src_ip_addr = IPv4Addr(0x0a000001);
    assert!(matches!(
        tx(&items, MessageType::EchoReply, received, unassigned, 1),
        Ok(Outbound::Resolve { .. })
    ));
}
