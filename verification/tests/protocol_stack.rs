use peachps::checksum::calculate_checksum_u16;
use peachps::internet::ip::IPv4Addr;
use peachps::internet::{InternetProtocol, InternetProtocolError};
use peachps::link::{LinkProtocol, LinkProtocolError, MacAddress};
use peachps::option::PeachPSOption;
use peachps::transport::tcp::{ConnState, ProtocolControlBlock};
use peachps::transport::{TransportProtocol, TransportProtocolError};
use peachps::{
    run, rx_datalink, rx_internet, rx_transport, step, Entropy, Items, Outbound, PeachPSError,
    Received, RxResult, Step,
};

const OUR_MAC: MacAddress = MacAddress([0xa8, 0x5e, 0x45, 0x2f, 0x94, 0x2e]);
const HOST_MAC: MacAddress = MacAddress([0x18, 0xec, 0xe7, 0x56, 0x5e, 0x60]);
const OUR_IP: IPv4Addr = IPv4Addr(0xc0a80b03);
const HOST_IP: IPv4Addr = IPv4Addr(0xc0a80b01);
const ENTROPY: Entropy = Entropy { id: 0x1234, iss: 100 };

const ARP_REQUEST_FRAME: [u8; 42] = [
    0xa8, 0x5e, 0x45, 0x2f, 0x94, 0x2e, 0x18, 0xec, 0xe7, 0x56, 0x5e, 0x60, 0x08, 0x06, 0x00, 0x01,
    0x08, 0x00, 0x06, 0x04, 0x00, 0x01, 0x18, 0xec, 0xe7, 0x56, 0x5e, 0x60, 0xc0, 0xa8, 0x0b, 0x01,
    0x00, 0x00, 0x00, 0x00, 0x00, 0x00, 0xc0, 0xa8, 0x0b, 0x03,
];

const ARP_REPLY_FRAME: [u8; 42] = [
    0x18, 0xec, 0xe7, 0x56, 0x5e, 0x60, 0xa8, 0x5e, 0x45, 0x2f, 0x94, 0x2e, 0x08, 0x06, 0x00, 0x01,
    0x08, 0x00, 0x06, 0x04, 0x00, 0x02, 0xa8, 0x5e, 0x45, 0x2f, 0x94, 0x2e, 0xc0, 0xa8, 0x0b, 0x03,
    0x18, 0xec, 0xe7, 0x56, 0x5e, 0x60, 0xc0, 0xa8, 0x0b, 0x01,
];

fn whole_stack() -> Items {
    Items::new(PeachPSOption {
        dev_addr: OUR_MAC,
        ip_addr: OUR_IP,
        network_mask: IPv4Addr(0xffffff00),
        debug: true,
        internet_filter: vec![InternetProtocol::IP, InternetProtocol::ARP],
        transport_filter: vec![TransportProtocol::ICMP, TransportProtocol::TCP],
    })
}

fn read_buffer(frame: &[u8]) -> [u8; 2048] {
    let mut buf = [0u8; 2048];
    buf[..frame.len()].copy_from_slice(frame);
    buf
}

fn echo_request_frame() -> Vec<u8> {
    let mut frame = vec![
        0xa8, 0x5e, 0x45, 0x2f, 0x94, 0x2e, 0x18, 0xec, 0xe7, 0x56, 0x5e, 0x60, 0x08, 0x00, 0x45,
        0x00, 0x00, 0x3c, 0x19, 0x17, 0x00, 0x00, 0x40, 0x01, 0xca, 0x55, 0xc0, 0xa8, 0x0b, 0x01,
        0xc0, 0xa8, 0x0b, 0x03, 0x08, 0x00, 0xf7, 0xf9, 0x00, 0x01, 0x00, 0x05,
    ];
    frame.extend_from_slice(&[0x00; 32]);
    frame
}

fn echo_reply_frame(id: [u8; 2], checksum: [u8; 2]) -> Vec<u8> {
    let mut frame = vec![
        0x18, 0xec, 0xe7, 0x56, 0x5e, 0x60, 0xa8, 0x5e, 0x45, 0x2f, 0x94, 0x2e, 0x08, 0x00, 0x45,
        0x00, 0x00, 0x3c, id[0], id[1], 0x00, 0x00, 0xff, 0x01, checksum[0], checksum[1], 0xc0,
        0xa8, 0x0b, 0x03, 0xc0, 0xa8, 0x0b, 0x01, 0x00, 0x00, 0xff, 0xf9, 0x00, 0x01, 0x00, 0x05,
    ];
    frame.extend_from_slice(&[0x00; 32]);
    frame
}

#[test]
fn new_stack_has_empty_tables() {
    let items = whole_stack();
    assert!(items.arp_table.is_empty());
    assert!(items.tcp_connection.is_empty());
    assert_eq!(None, items.lookup_arp_table(&HOST_IP));
    assert_eq!(OUR_MAC, items.opt.dev_addr);
}

#[test]
fn options_default_and_filters() {
    let opt = PeachPSOption::default();
    assert_eq!(MacAddress([0; 6]), opt.dev_addr);
    assert_eq!(IPv4Addr(0), opt.ip_addr);
    assert_eq!(IPv4Addr(0), opt.network_mask);
    assert!(!opt.debug);
    assert!(!opt.allows_internet(InternetProtocol::IP));
    assert!(!opt.allows_transport(TransportProtocol::TCP));
    let items = whole_stack();
    assert!(items.opt.allows_internet(InternetProtocol::IP));
    assert!(items.opt.allows_internet(InternetProtocol::ARP));
    assert!(!items.opt.allows_internet(InternetProtocol::IPv6));
    assert!(items.opt.allows_transport(TransportProtocol::ICMP));
    assert!(items.opt.allows_transport(TransportProtocol::TCP));
    assert!(!items.opt.allows_transport(TransportProtocol::UDP));
}

#[test]
fn rx_result_default() {
    let result = RxResult::default();
    assert_eq!(MacAddress([0; 6]), result.src_mac_addr);
    assert_eq!(IPv4Addr(0), result.src_ip_addr);
    assert_eq!(InternetProtocol::IP, result.ip_type);
    assert_eq!(TransportProtocol::TCP, result.tp_type);
    assert_eq!(0, result.message_len);
}

#[test]
fn read_of_nothing_is_the_end() {
    let mut items = whole_stack();
    let buf = read_buffer(&ARP_REQUEST_FRAME);
    assert_eq!(Err(PeachPSError::EOF), rx_datalink(&items, LinkProtocol::Ethernet, &buf, 0));
    assert_eq!(Err(PeachPSError::EOF), rx_internet(&mut items, LinkProtocol::Ethernet, &buf, 0));
    let received = rx_transport(&mut items, LinkProtocol::Ethernet, &buf, 0, ENTROPY);
    assert_eq!(Err(PeachPSError::EOF), received.data);
    assert_eq!(Step::Stop, step(true, received));
    assert_eq!(Step::Stop, run(&mut items, LinkProtocol::Ethernet, &buf, 0));
    assert!(items.arp_table.is_empty());
}

#[test]
fn only_the_bytes_that_were_read_are_the_frame() {
    let items = whole_stack();
    let buf = read_buffer(&ARP_REQUEST_FRAME);
    let (result, rest) = rx_datalink(&items, LinkProtocol::Ethernet, &buf, 42).unwrap();
    assert_eq!(HOST_MAC, result.src_mac_addr);
    assert_eq!(InternetProtocol::ARP, result.ip_type);
    assert_eq!(28, rest.len());
    assert_eq!(
        Err(PeachPSError::LinkProtocolError { e: LinkProtocolError::CannotParseFrameHeader }),
        rx_datalink(&items, LinkProtocol::Ethernet, &buf, 13)
    );
    let (_, rest) = rx_datalink(&items, LinkProtocol::Ethernet, &buf[..42], 100).unwrap();
    assert_eq!(28, rest.len());
}

#[test]
fn arp_request_is_learnt_and_answered() {
    let mut items = whole_stack();
    let buf = read_buffer(&ARP_REQUEST_FRAME);
    let (result, rest, outbound) =
        rx_internet(&mut items, LinkProtocol::Ethernet, &buf, 42).unwrap();
    assert_eq!(Some(HOST_MAC), items.lookup_arp_table(&IPv4Addr::parse("192.168.11.1").unwrap()));
    assert_eq!(HOST_IP, result.src_ip_addr);
    assert!(rest.is_empty());
    assert_eq!(Some(Outbound::Frame { frame: ARP_REPLY_FRAME.to_vec() }), outbound);
}

#[test]
fn arp_reply_is_kept_when_the_transport_layer_has_nothing_to_read() {
    let mut items = whole_stack();
    let buf = read_buffer(&ARP_REQUEST_FRAME);
    let received = rx_transport(&mut items, LinkProtocol::Ethernet, &buf, 42, ENTROPY);
    assert_eq!(
        Some(Outbound::Frame { frame: ARP_REPLY_FRAME.to_vec() }),
        received.internet_outbound
    );
    assert_eq!(None, received.transport_outbound);
    assert_eq!(
        Err(PeachPSError::TransportProtocolError {
            e: TransportProtocolError::CannotParseTCPSegment
        }),
        received.data
    );
    assert_eq!(Some(HOST_MAC), items.lookup_arp_table(&HOST_IP));
}

#[test]
fn echo_request_is_answered_through_all_layers() {
    let mut items = whole_stack();
    items.arp_table.insert(HOST_IP.0, HOST_MAC);
    let buf = read_buffer(&echo_request_frame());
    let received = rx_transport(&mut items, LinkProtocol::Ethernet, &buf, 74, ENTROPY);
    assert_eq!(None, received.internet_outbound);
    assert_eq!(
        Some(Outbound::Frame { frame: echo_reply_frame([0x12, 0x34], [0x12, 0x38]) }),
        received.transport_outbound
    );
    let mut data = vec![0x00, 0x01, 0x00, 0x05];
    data.extend_from_slice(&[0x00; 32]);
    assert_eq!(Ok(data), received.data);
}

#[test]
fn echo_request_is_answered_with_a_random_identification() {
    let mut items = whole_stack();
    items.arp_table.insert(HOST_IP.0, HOST_MAC);
    let buf = read_buffer(&echo_request_frame());
    let frame = match run(&mut items, LinkProtocol::Ethernet, &buf, 74) {
        Step::Continue {
            internet_outbound: None,
            transport_outbound: Some(Outbound::Frame { frame }),
            report: None,
        } => frame,
        other => panic!("{:?}", other),
    };
    let expected = echo_reply_frame([frame[18], frame[19]], [frame[24], frame[25]]);
    assert_eq!(expected, frame);
    assert_eq!(Ok(0), calculate_checksum_u16(&frame[14..], 20, ()));
    assert_eq!(0xff, frame[22]);
    assert_eq!(0x01, frame[23]);
}

#[test]
fn syn_is_answered_through_all_layers() {
    let mut items = whole_stack();
    items.arp_table.insert(HOST_IP.0, HOST_MAC);
    items.tcp_connection.push(ProtocolControlBlock::listen(OUR_IP, 80));
    let mut frame = vec![
        0xa8, 0x5e, 0x45, 0x2f, 0x94, 0x2e, 0x18, 0xec, 0xe7, 0x56, 0x5e, 0x60, 0x08, 0x00, 0x45,
        0x00, 0x00, 0x28, 0x00, 0x01, 0x00, 0x00, 0x40, 0x06, 0x00, 0x00, 0xc0, 0xa8, 0x0b, 0x01,
        0xc0, 0xa8, 0x0b, 0x03, 0x9c, 0x40, 0x00, 0x50, 0x00, 0x00, 0x00, 0x64, 0x00, 0x00, 0x00,
        0x00, 0x50, 0x02, 0x04, 0x00, 0x00, 0x00, 0x00, 0x00,
    ];
    let c = calculate_checksum_u16(&frame[14..], 20, ()).unwrap();
    frame[24] = (c >> 8) as u8;
    frame[25] = (c & 0xff) as u8;
    frame.extend_from_slice(&[0x00; 6]);
    let buf = read_buffer(&frame);
    let received = rx_transport(&mut items, LinkProtocol::Ethernet, &buf, 60, ENTROPY);
    assert_eq!(Ok(vec![]), received.data);
    assert_eq!(ConnState::SynReceived, items.tcp_connection[0].state);
    assert_eq!(101, items.tcp_connection[0].irs);
    match received.transport_outbound {
        Some(Outbound::Frame { frame }) => {
            assert_eq!(54, frame.len());
            assert_eq!(&[0x00, 0x00, 0x00, 0x64], &frame[38..42]);
            assert_eq!(&[0x00, 0x00, 0x00, 0x65], &frame[42..46]);
            assert_eq!(0x12, frame[47]);
        }
        other => panic!("{:?}", other),
    }
}

#[test]
fn frame_for_another_station_is_dropped_quietly() {
    let mut items = whole_stack();
    let mut frame = ARP_REQUEST_FRAME;
    frame[0] = 0x00;
    let buf = read_buffer(&frame);
    let received = rx_transport(&mut items, LinkProtocol::Ethernet, &buf, 42, ENTROPY);
    assert_eq!(Err(PeachPSError::Ignore), received.data);
    assert_eq!(
        Step::Continue { internet_outbound: None, transport_outbound: None, report: None },
        run(&mut items, LinkProtocol::Ethernet, &buf, 42)
    );
    assert!(items.arp_table.is_empty());
}

#[test]
fn protocols_outside_the_filters_are_dropped_quietly() {
    let mut items = whole_stack();
    items.opt.internet_filter = vec![InternetProtocol::IP];
    let buf = read_buffer(&ARP_REQUEST_FRAME);
    assert_eq!(
        Err(PeachPSError::Ignore),
        rx_internet(&mut items, LinkProtocol::Ethernet, &buf, 42)
    );
    assert!(items.arp_table.is_empty());

    let mut items = whole_stack();
    items.opt.transport_filter = vec![TransportProtocol::TCP];
    let buf = read_buffer(&echo_request_frame());
    let received = rx_transport(&mut items, LinkProtocol::Ethernet, &buf, 74, ENTROPY);
    assert_eq!(Err(PeachPSError::Ignore), received.data);
    assert_eq!(None, received.transport_outbound);

    let mut items = whole_stack();
    items.opt.internet_filter.push(InternetProtocol::IPv6);
    let mut frame = ARP_REQUEST_FRAME;
    frame[12] = 0x86;
    frame[13] = 0xdd;
    let buf = read_buffer(&frame);
    assert_eq!(
        Err(PeachPSError::Ignore),
        rx_internet(&mut items, LinkProtocol::Ethernet, &buf, 42)
    );

    let mut items = whole_stack();
    items.opt.transport_filter.push(TransportProtocol::UDP);
    let mut frame = echo_request_frame();
    frame[23] = 17;
    frame[24] = 0xca;
    frame[25] = 0x45;
    let buf = read_buffer(&frame);
    let received = rx_transport(&mut items, LinkProtocol::Ethernet, &buf, 74, ENTROPY);
    assert_eq!(Err(PeachPSError::Ignore), received.data);
}

#[test]
fn failures_are_reported_when_asked_for_and_never_stop_the_loop() {
    let mut items = whole_stack();
    let mut frame = echo_request_frame();
    frame[22] = 0x00;
    frame[24] = 0x0a;
    frame[25] = 0x56;
    let buf = read_buffer(&frame);
    let dead = PeachPSError::InternetProtocolError { e: InternetProtocolError::PacketWasDead };
    assert_eq!(
        Step::Continue { internet_outbound: None, transport_outbound: None, report: Some(dead) },
        run(&mut items, LinkProtocol::Ethernet, &buf, 74)
    );
    items.opt.debug = false;
    assert_eq!(
        Step::Continue { internet_outbound: None, transport_outbound: None, report: None },
        run(&mut items, LinkProtocol::Ethernet, &buf, 74)
    );
}

#[test]
fn step_follows_what_was_received() {
    let frame = Outbound::Frame { frame: vec![1, 2, 3] };
    let received = Received {
        internet_outbound: Some(frame.clone()),
        transport_outbound: None,
        data: Err(PeachPSError::ShouldNotProcess),
    };
    assert_eq!(
        Step::Continue {
            internet_outbound: Some(frame.clone()),
            transport_outbound: None,
            report: Some(PeachPSError::ShouldNotProcess)
        },
        step(true, received)
    );
    let received = Received {
        internet_outbound: None,
        transport_outbound: Some(frame.clone()),
        data: Ok(vec![9]),
    };
    assert_eq!(
        Step::Continue {
            internet_outbound: None,
            transport_outbound: Some(frame),
            report: None
        },
        step(true, received)
    );
    let received = Received {
        internet_outbound: None,
        transport_outbound: None,
        data: Err(PeachPSError::Ignore),
    };
    assert_eq!(
        Step::Continue { internet_outbound: None, transport_outbound: None, report: None },
        step(true, received)
    );
}

#[test]
fn packet_of_an_unhandled_protocol_is_dropped_quietly_at_the_transport_layer() {
    let mut items = whole_stack();
    let frame = [
        0xa8, 0x5e, 0x45, 0x2f, 0x94, 0x2e, 0x18, 0xec, 0xe7, 0x56, 0x5e, 0x60, 0x08, 0x00, 0x45,
        0x00, 0x00, 0x14, 0x00, 0x00, 0x00, 0x00, 0x40, 0x59, 0xe3, 0x3c, 0xc0, 0xa8, 0x0b, 0x01,
        0xc0, 0xa8, 0x0b, 0x03,
    ];
    let buf = read_buffer(&frame);
    let received = rx_transport(&mut items, LinkProtocol::Ethernet, &buf, 34, ENTROPY);
    assert_eq!(Err(PeachPSError::Ignore), received.data);
    assert_eq!(None, received.internet_outbound);
    assert_eq!(None, received.transport_outbound);
    assert_eq!(
        Step::Continue { internet_outbound: None, transport_outbound: None, report: None },
        run(&mut items, LinkProtocol::Ethernet, &buf, 34)
    );

    let mut dead = frame;
    dead[22] = 0x00;
    dead[24] = 0x23;
    dead[25] = 0x3d;
    let buf = read_buffer(&dead);
    let received = rx_transport(&mut items, LinkProtocol::Ethernet, &buf, 34, ENTROPY);
    assert_eq!(
        Err(PeachPSError::InternetProtocolError { e: InternetProtocolError::PacketWasDead }),
        received.data
    );
    assert_eq!(None, received.transport_outbound);
    assert!(items.arp_table.is_empty());
}
