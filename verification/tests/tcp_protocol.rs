use peachps::checksum::calculate_checksum_u16;
use peachps::internet::ip::IPv4Addr;
use peachps::internet::InternetProtocolError;
use peachps::link::MacAddress;
use peachps::option::PeachPSOption;
use peachps::transport::tcp::control_flag::{is_up, ACK, FIN, PSH, RST, RST_ACK, SYN, SYN_ACK, URG};
use peachps::transport::tcp::protocol::{
    find_pcb, local_matches, next_seq, no_connection_established, prepare_for_tx, prepare_reset,
    segment_arrives, segment_arrives_on_listen, tx, tx_segment,
};
use peachps::transport::tcp::{
    rx, ConnState, Connection, EndPoint, ProtocolControlBlock, PseudoHeader, SegmentHeader,
    TxPreparation,
};
use peachps::transport::{TransportProtocol, TransportProtocolError};
use peachps::{Items, Outbound, RxResult};

const OUR_MAC: MacAddress = MacAddress([0xa8, 0x5e, 0x45, 0x2f, 0x94, 0x2e]);
const PEER_MAC: MacAddress = MacAddress([0x18, 0xec, 0xe7, 0x56, 0x5e, 0x60]);
const OUR_IP: IPv4Addr = IPv4Addr(0x0a000001);
const PEER_IP: IPv4Addr = IPv4Addr(0x0a000005);

const SYN_SEGMENT: [u8; 20] = [
    0x9c, 0x40, 0x00, 0x50, 0x00, 0x00, 0x00, 0x64, 0x00, 0x00, 0x00, 0x00, 0x50, 0x02, 0x04, 0x00,
    0xfa, 0xe8, 0x00, 0x00,
];

fn listening_stack() -> Items {
    let mut opt = PeachPSOption::default();
    opt.dev_addr = OUR_MAC;
    opt.ip_addr = OUR_IP;
    opt.network_mask = IPv4Addr(0xffffff00);
    let mut items = Items::new(opt);
    items.arp_table.insert(PEER_IP.0, PEER_MAC);
    items.tcp_connection.push(ProtocolControlBlock::listen(OUR_IP, 80));
    items
}

fn from_peer(message_len: usize) -> RxResult {
    let mut rx_result = RxResult::default();
    rx_result.src_mac_addr = PEER_MAC;
    rx_result.src_ip_addr = PEER_IP;
    rx_result.tp_type = TransportProtocol::TCP;
    rx_result.message_len = message_len;
    rx_result
}

fn peer_connection(port: u16) -> Connection {
    Connection {
        local: EndPoint { addr: OUR_IP, port },
        foreign: EndPoint { addr: PEER_IP, port: 40000 },
    }
}

fn segment_of(outbound: Option<Outbound>) -> Vec<u8> {
    match outbound {
        Some(Outbound::Frame { frame }) => {
            assert_eq!(&[0x08, 0x00], &frame[12..14]);
            assert_eq!(0x06, frame[23]);
            assert_eq!(Ok(0), calculate_checksum_u16(&frame[14..], 20, ()));
            frame[34..].to_vec()
        }
        other => panic!("{:?}", other),
    }
}

fn sums_to_zero(segment: &[u8]) -> bool {
    let pseudo = PseudoHeader { src_addr: OUR_IP, dst_addr: PEER_IP, length: segment.len() as u16 };
    let mut summed = pseudo.to_bytes(()).unwrap();
    summed.extend_from_slice(segment);
    calculate_checksum_u16(&summed, summed.len() as u16, ()) == Ok(0)
}

#[test]
fn segment_header_round_trip() {
    let header = SegmentHeader::new_from_bytes(&SYN_SEGMENT, ()).unwrap();
    assert_eq!(40000, header.src_port);
    assert_eq!(80, header.dst_port);
    assert_eq!(100, header.sequence);
    assert_eq!(0, header.acknowledgement);
    assert_eq!(5, header.data_offset());
    assert_eq!(0x02, header.control_flag());
    assert_eq!(1024, header.window_size);
    assert_eq!(0xfae8, header.checksum);
    assert_eq!(0, header.urgent_pointer);
    assert_eq!(Ok(SYN_SEGMENT.to_vec()), header.to_bytes(()));
    assert_eq!(SegmentHeader::LEAST_LENGTH, header.to_bytes(()).unwrap().len());
    let built = SegmentHeader {
        src_port: 0xffff,
        dst_port: 1,
        sequence: 0xfffffffe,
        acknowledgement: 0x80000000,
        offset: 0xf0,
        flg: 0xff,
        window_size: 0x1234,
        checksum: 0xabcd,
        urgent_pointer: 0x4321,
    };
    assert_eq!(Ok(built), SegmentHeader::new_from_bytes(&built.to_bytes(()).unwrap(), ()));
    assert_eq!(Err(7), SegmentHeader::new_from_bytes(&SYN_SEGMENT[..19], 7));
    assert_eq!(SegmentHeader::new_from_bytes(&[0; 20], ()).unwrap(), SegmentHeader::default());
}

#[test]
fn control_flags_are_the_low_six_bits() {
    let mut header = SegmentHeader::default();
    header.flg = 0xd2;
    assert_eq!(0x12, header.control_flag());
    assert!(header.flag_is_up(SYN));
    assert!(header.flag_is_up(ACK));
    assert!(!header.flag_is_up(RST));
    assert!(!header.flag_is_up(FIN));
    assert!(!header.flag_is_up(PSH));
    assert!(!header.flag_is_up(URG));
    header.flg = 0xc0;
    assert_eq!(0, header.control_flag());
    assert!(!header.flag_is_up(0xff));
    assert!(is_up(0x3f, URG));
    assert!(!is_up(0x1f, URG));
    assert_eq!(SYN | ACK, SYN_ACK);
    assert_eq!(RST | ACK, RST_ACK);
    header.offset = 0x5f;
    assert_eq!(5, header.data_offset());
}

#[test]
fn pseudo_header_bytes() {
    let pseudo = PseudoHeader { src_addr: OUR_IP, dst_addr: PEER_IP, length: 20 };
    assert_eq!(
        Ok(vec![0x0a, 0x00, 0x00, 0x01, 0x0a, 0x00, 0x00, 0x05, 0x00, 0x06, 0x00, 0x14]),
        pseudo.to_bytes(())
    );
}

#[test]
fn sequence_numbers_wrap() {
    assert_eq!(101, next_seq(100));
    assert_eq!(0, next_seq(0xffff_ffff));
}

#[test]
fn syn_on_a_listening_port_opens_the_connection() {
    let mut items = listening_stack();
    let iss = 100;
    let (header, rest, outbound) = rx(&mut items, from_peer(20), &SYN_SEGMENT, iss, 7).unwrap();
    assert_eq!(100, header.sequence);
    assert!(rest.is_empty());

    assert_eq!(1, items.tcp_connection.len());
    let pcb = items.tcp_connection[0];
    assert_eq!(ConnState::SynReceived, pcb.state);
    assert_eq!(101, pcb.irs);
    assert_eq!(iss, pcb.iss);
    assert_eq!(iss, pcb.send.unacknowleage);
    assert_eq!(iss + 1, pcb.send.next);
    assert_eq!(peer_connection(80), pcb.conn);
    assert_eq!(65535, pcb.receive.window_size);

    let segment = segment_of(outbound);
    assert_eq!(
        vec![
            0x00, 0x50, 0x9c, 0x40, 0x00, 0x00, 0x00, 0x64, 0x00, 0x00, 0x00, 0x65, 0x50, 0x12,
            0xff, 0xff, 0xfe, 0x73, 0x00, 0x00
        ],
        segment
    );
    let answer = SegmentHeader::new_from_bytes(&segment, ()).unwrap();
    assert_eq!(iss, answer.sequence);
    assert_eq!(101, answer.acknowledgement);
    assert_eq!(SYN | ACK, answer.flg);
    assert!(sums_to_zero(&segment));
}

#[test]
fn syn_ack_acknowledges_the_sequence_number_behind_the_initial_one() {
    let mut items = listening_stack();
    let iss = 0x01020304;
    let (_, _, outbound) = rx(&mut items, from_peer(20), &SYN_SEGMENT, iss, 7).unwrap();
    let pcb = items.tcp_connection[0];
    assert_eq!(101, pcb.irs);
    assert_eq!(iss, pcb.iss);
    assert_eq!(iss, pcb.send.unacknowleage);
    assert_eq!(iss + 1, pcb.send.next);
    assert_eq!(iss + 1, pcb.receive.next);
    let segment = segment_of(outbound);
    assert_eq!(
        vec![
            0x00, 0x50, 0x9c, 0x40, 0x01, 0x02, 0x03, 0x04, 0x01, 0x02, 0x03, 0x05, 0x50, 0x12,
            0xff, 0xff, 0xf7, 0x2f, 0x00, 0x00
        ],
        segment
    );
}

#[test]
fn initial_sequence_number_at_the_top_wraps() {
    let mut items = listening_stack();
    let mut syn = SYN_SEGMENT;
    syn[4] = 0xff;
    syn[5] = 0xff;
    syn[6] = 0xff;
    syn[7] = 0xff;
    let (_, _, outbound) = rx(&mut items, from_peer(20), &syn, 0xffff_ffff, 7).unwrap();
    let pcb = items.tcp_connection[0];
    assert_eq!(0, pcb.irs);
    assert_eq!(0xffff_ffff, pcb.send.unacknowleage);
    assert_eq!(0, pcb.send.next);
    let answer = SegmentHeader::new_from_bytes(&segment_of(outbound), ()).unwrap();
    assert_eq!(0xffff_ffff, answer.sequence);
    assert_eq!(0, answer.acknowledgement);
}

#[test]
fn second_syn_does_not_open_a_second_connection() {
    let mut items = listening_stack();
    rx(&mut items, from_peer(20), &SYN_SEGMENT, 100, 7).unwrap();
    let opened = items.tcp_connection[0];
    let (_, _, outbound) = rx(&mut items, from_peer(20), &SYN_SEGMENT, 555, 8).unwrap();
    assert_eq!(None, outbound);
    assert_eq!(1, items.tcp_connection.len());
    assert!(opened == items.tcp_connection[0]);
}

#[test]
fn syn_on_a_port_nobody_listens_on_is_reset() {
    let mut items = listening_stack();
    let mut syn = SYN_SEGMENT;
    syn[3] = 0x51;
    let before = items.tcp_connection[0];
    let (_, _, outbound) = rx(&mut items, from_peer(20), &syn, 100, 7).unwrap();
    assert_eq!(1, items.tcp_connection.len());
    assert!(before == items.tcp_connection[0]);
    let segment = segment_of(outbound);
    assert_eq!(
        vec![
            0x00, 0x51, 0x9c, 0x40, 0x00, 0x00, 0x00, 0x00, 0x00, 0x00, 0x00, 0x65, 0x50, 0x14,
            0x00, 0x00, 0xfe, 0xd4, 0x00, 0x00
        ],
        segment
    );
    assert!(sums_to_zero(&segment));
}

#[test]
fn ack_on_a_port_nobody_listens_on_is_reset_at_what_it_acknowledged() {
    let mut items = listening_stack();
    let mut ack = SYN_SEGMENT;
    ack[3] = 0x51;
    ack[11] = 0x55;
    ack[13] = 0x10;
    let (_, _, outbound) = rx(&mut items, from_peer(20), &ack, 100, 7).unwrap();
    assert_eq!(
        vec![
            0x00, 0x51, 0x9c, 0x40, 0x00, 0x00, 0x00, 0x55, 0x00, 0x00, 0x00, 0x00, 0x50, 0x04,
            0x00, 0x00, 0xfe, 0xf4, 0x00, 0x00
        ],
        segment_of(outbound)
    );
}

#[test]
fn reset_on_a_port_nobody_listens_on_is_dropped() {
    let mut items = listening_stack();
    let mut rst = SYN_SEGMENT;
    rst[3] = 0x51;
    rst[13] = 0x04;
    let (_, _, outbound) = rx(&mut items, from_peer(20), &rst, 100, 7).unwrap();
    assert_eq!(None, outbound);
    assert_eq!(ConnState::Listen, items.tcp_connection[0].state);
}

#[test]
fn closed_block_counts_as_no_connection() {
    let mut items = listening_stack();
    items.tcp_connection[0].state = ConnState::Close;
    let (_, _, outbound) = rx(&mut items, from_peer(20), &SYN_SEGMENT, 100, 7).unwrap();
    let answer = SegmentHeader::new_from_bytes(&segment_of(outbound), ()).unwrap();
    assert_eq!(RST_ACK, answer.flg);
    assert_eq!(101, answer.acknowledgement);
    assert_eq!(ConnState::Close, items.tcp_connection[0].state);
}

#[test]
fn reset_to_a_listening_block_is_dropped() {
    let mut items = listening_stack();
    let mut rst = SYN_SEGMENT;
    rst[13] = 0x06;
    let (_, _, outbound) = rx(&mut items, from_peer(20), &rst, 100, 7).unwrap();
    assert_eq!(None, outbound);
    assert_eq!(ConnState::Listen, items.tcp_connection[0].state);
}

#[test]
fn ack_to_a_listening_block_is_reset() {
    let mut items = listening_stack();
    let mut ack = SYN_SEGMENT;
    ack[11] = 0x09;
    ack[13] = 0x12;
    let (_, _, outbound) = rx(&mut items, from_peer(20), &ack, 100, 7).unwrap();
    let answer = SegmentHeader::new_from_bytes(&segment_of(outbound), ()).unwrap();
    assert_eq!(RST, answer.flg);
    assert_eq!(9, answer.sequence);
    assert_eq!(0, answer.acknowledgement);
    assert_eq!(ConnState::Listen, items.tcp_connection[0].state);
}

#[test]
fn segment_without_control_bits_to_a_listening_block_is_dropped() {
    let mut items = listening_stack();
    let mut bare = SYN_SEGMENT;
    bare[13] = 0x08;
    let (_, _, outbound) = rx(&mut items, from_peer(20), &bare, 100, 7).unwrap();
    assert_eq!(None, outbound);
    assert_eq!(ConnState::Listen, items.tcp_connection[0].state);
}

#[test]
fn reset_acknowledges_data_syn_and_fin() {
    let mut header = SegmentHeader::new_from_bytes(&SYN_SEGMENT, ()).unwrap();
    header.flg = SYN | FIN;
    assert_eq!(
        TxPreparation {
            sequence: 0,
            acknowledgement: 112,
            flg: RST_ACK,
            window_size: 0,
            length: 0
        },
        prepare_reset(header, 10)
    );
    header.sequence = 0xffff_fffe;
    assert_eq!(2, prepare_reset(header, 2).acknowledgement);
    header.flg = ACK | SYN;
    header.acknowledgement = 77;
    assert_eq!(
        TxPreparation { sequence: 77, acknowledgement: 0, flg: RST, window_size: 0, length: 0 },
        prepare_reset(header, 10)
    );
}

#[test]
fn malformed_segments_cannot_be_parsed() {
    let mut items = listening_stack();
    assert_eq!(
        Err(TransportProtocolError::CannotParseTCPSegment),
        rx(&mut items, from_peer(19), &SYN_SEGMENT, 1, 1)
    );
    let mut short_header = SYN_SEGMENT;
    short_header[12] = 0x40;
    assert_eq!(
        Err(TransportProtocolError::CannotParseTCPSegment),
        rx(&mut items, from_peer(20), &short_header, 1, 1)
    );
    let mut long_header = SYN_SEGMENT;
    long_header[12] = 0x60;
    assert_eq!(
        Err(TransportProtocolError::CannotParseTCPSegment),
        rx(&mut items, from_peer(20), &long_header, 1, 1)
    );
    assert_eq!(ConnState::Listen, items.tcp_connection[0].state);
}

#[test]
fn data_starts_behind_the_options() {
    let mut items = listening_stack();
    let mut segment = SYN_SEGMENT.to_vec();
    segment[12] = 0x60;
    segment[13] = 0x04;
    segment.extend_from_slice(&[0x01, 0x01, 0x01, 0x00, 0xaa, 0xbb]);
    let (header, rest, _) = rx(&mut items, from_peer(26), &segment, 1, 1).unwrap();
    assert_eq!(6, header.data_offset());
    assert_eq!(vec![0xaa, 0xbb], rest);
}

#[test]
fn exact_connection_is_found_before_a_listening_block() {
    let mut items = listening_stack();
    let mut opened = ProtocolControlBlock::listen(OUR_IP, 80);
    opened.state = ConnState::SynReceived;
    opened.conn = peer_connection(80);
    items.tcp_connection.push(opened);
    let found = find_pcb(&items, peer_connection(80)).unwrap();
    assert_eq!(1, found.0);
    assert_eq!(ConnState::SynReceived, found.1.state);
    let other = Connection {
        local: EndPoint { addr: OUR_IP, port: 80 },
        foreign: EndPoint { addr: PEER_IP, port: 40001 },
    };
    assert_eq!(0, find_pcb(&items, other).unwrap().0);
    assert!(find_pcb(&items, peer_connection(81)).is_none());
}

#[test]
fn listening_on_any_address_matches_every_local_address() {
    let mut items = listening_stack();
    items.tcp_connection[0] = ProtocolControlBlock::listen(IPv4Addr::any(), 80);
    assert!(local_matches(&items.tcp_connection[0], peer_connection(80)));
    assert!(!local_matches(&items.tcp_connection[0], peer_connection(81)));
    assert_eq!(0, find_pcb(&items, peer_connection(80)).unwrap().0);
    let elsewhere = ProtocolControlBlock::listen(IPv4Addr(0x0a000002), 80);
    assert!(!local_matches(&elsewhere, peer_connection(80)));
}

#[test]
fn no_connection_is_none_or_closed() {
    let header = SegmentHeader::default();
    let mut pcb = ProtocolControlBlock::listen(OUR_IP, 80);
    assert!(no_connection_established(header, None));
    assert!(!no_connection_established(header, Some((0, pcb))));
    pcb.state = ConnState::Close;
    assert!(no_connection_established(header, Some((0, pcb))));
    pcb.state = ConnState::SynReceived;
    assert!(!no_connection_established(header, Some((0, pcb))));
}

#[test]
fn syn_carries_the_initial_sequence_number_and_other_segments_the_next() {
    let mut pcb = ProtocolControlBlock::listen(OUR_IP, 80);
    pcb.iss = 1000;
    pcb.send.next = 2000;
    pcb.receive.next = 3000;
    pcb.receive.window_size = 4000;
    assert_eq!(
        TxPreparation {
            sequence: 1000,
            acknowledgement: 3000,
            flg: SYN_ACK,
            window_size: 4000,
            length: 0
        },
        prepare_for_tx(SYN_ACK, 0, pcb)
    );
    assert_eq!(
        TxPreparation {
            sequence: 2000,
            acknowledgement: 3000,
            flg: ACK,
            window_size: 4000,
            length: 12
        },
        prepare_for_tx(ACK, 12, pcb)
    );
}

#[test]
fn segment_carries_its_data_and_sums_to_zero() {
    let items = listening_stack();
    let tx_prep = TxPreparation {
        sequence: 5,
        acknowledgement: 6,
        flg: ACK | PSH,
        window_size: 7,
        length: 3,
    };
    let data = vec![0x61, 0x62, 0x63];
    let outbound = tx_segment(&items, tx_prep, data.clone(), peer_connection(80), from_peer(0), 1);
    let segment = segment_of(Some(outbound.unwrap()));
    assert_eq!(23, segment.len());
    assert_eq!(&data[..], &segment[20..]);
    let header = SegmentHeader::new_from_bytes(&segment, ()).unwrap();
    assert_eq!(80, header.src_port);
    assert_eq!(40000, header.dst_port);
    assert_eq!(5, header.sequence);
    assert_eq!(6, header.acknowledgement);
    assert_eq!(0x50, header.offset);
    assert_eq!(0x18, header.flg);
    assert_eq!(7, header.window_size);
    assert_eq!(0, header.urgent_pointer);
    assert!(sums_to_zero(&segment));
    assert_eq!(
        Some(segment),
        tx(&items, data, tx_prep, peer_connection(80), from_peer(0), 1)
            .ok()
            .map(|outbound| segment_of(Some(outbound)))
    );
}

#[test]
fn segment_longer_than_a_packet_carries_cannot_be_built() {
    let items = listening_stack();
    let tx_prep =
        TxPreparation { sequence: 5, acknowledgement: 6, flg: ACK, window_size: 7, length: 0 };
    assert!(
        tx_segment(&items, tx_prep, vec![0; 1460], peer_connection(80), from_peer(0), 1).is_ok()
    );
    assert_eq!(
        Err(TransportProtocolError::IPError { e: InternetProtocolError::CannotConstructPacket }),
        tx_segment(&items, tx_prep, vec![0; 1461], peer_connection(80), from_peer(0), 1)
    );
}

#[test]
fn segment_arrives_where_its_block_says() {
    let mut items = listening_stack();
    let header = SegmentHeader::new_from_bytes(&SYN_SEGMENT, ()).unwrap();
    let outbound =
        segment_arrives(&mut items, header, peer_connection(80), from_peer(20), 0, 42, 1).unwrap();
    assert!(outbound.is_some());
    assert_eq!(ConnState::SynReceived, items.tcp_connection[0].state);
    assert_eq!(42, items.tcp_connection[0].iss);

    let mut items = listening_stack();
    let pcb = items.tcp_connection[0];
    let outbound = segment_arrives_on_listen(
        &mut items,
        header,
        peer_connection(80),
        pcb,
        0,
        from_peer(20),
        0,
        43,
        1,
    )
    .unwrap();
    assert!(outbound.is_some());
    assert_eq!(43, items.tcp_connection[0].send.unacknowleage);
    assert_eq!(44, items.tcp_connection[0].send.next);
}

#[test]
fn listening_block_starts_with_everything_at_zero() {
    let pcb = ProtocolControlBlock::listen(OUR_IP, 8080);
    assert_eq!(ConnState::Listen, pcb.state);
    assert_eq!(EndPoint { addr: OUR_IP, port: 8080 }, pcb.conn.local);
    assert_eq!(EndPoint { addr: IPv4Addr(0), port: 0 }, pcb.conn.foreign);
    assert_eq!(0, pcb.irs);
    assert_eq!(0, pcb.iss);
    assert_eq!(0, pcb.receive.next);
    assert_eq!(0, pcb.receive.window_size);
    assert_eq!(0, pcb.receive.urgent_pointer);
    assert_eq!(0, pcb.send.next);
    assert_eq!(0, pcb.send.window_size);
    assert_eq!(0, pcb.send.urgent_pointer);
    assert_eq!(0, pcb.send.unacknowleage);
    assert_eq!(0, pcb.send.wl1);
    assert_eq!(0, pcb.send.wl2);
    assert!(pcb.buffer.iter().all(|byte| *byte == 0));
    assert_eq!(65535, pcb.buffer.len());
}
