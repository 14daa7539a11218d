//! Receiving and sending IPv4 packets.

use crate::checksum::{
    calculate_checksum_u16, lemma_checksum_field, lemma_one_bit_breaks_checksum, spec_checksum,
    spec_one_bit_apart,
};
use crate::internet::arp;
use crate::internet::arp::Resolution;
use crate::internet::ip::{IPHeader, IPv4Addr};
use crate::internet::{InternetProtocol, InternetProtocolError};
use crate::link::ethernet;
use crate::link::{MacAddress, MTU};
use crate::protocol_stack::{Items, Outbound, OutboundView, RxResult};
use crate::transport::TransportProtocol;
use vstd::prelude::*;

verus! {

/// For whom a packet is.
#[derive(Debug, Clone, Copy, PartialEq, Eq, Structural)]
pub enum ProcessMode {
    /// The packet is addressed to this host, directly or by broadcast.
    Me,
    /// The packet is addressed to another host.
    AnotherHost,
}

/// Whether `dst_addr` selects the host with address `ip_addr`: it is the
/// host's address, the directed broadcast address of its network, or the
/// limited broadcast address.
pub open spec fn spec_is_for_me(ip_addr: IPv4Addr, network_mask: IPv4Addr, dst_addr: IPv4Addr)
    -> bool {
    dst_addr == ip_addr || dst_addr == ip_addr.spec_to_broadcast(network_mask) || dst_addr
        == IPv4Addr::spec_broadcast()
}

/// The verdict on a packet with header `packet_hdr`, received as the
/// `raw_packet_len` bytes `raw_packet`. The checks come in this order:
/// version, options, lengths, header checksum, time to live, destination.
pub open spec fn spec_validate_ip_packet(
    raw_packet: Seq<u8>,
    packet_hdr: IPHeader,
    ip_addr: IPv4Addr,
    network_mask: IPv4Addr,
    raw_packet_len: usize,
) -> Result<ProcessMode, InternetProtocolError> {
    if packet_hdr.spec_version_from_vhl() != IPHeader::VERSION4 {
        Err(InternetProtocolError::NotIPv4Packet)
    } else if packet_hdr.spec_ihl_bytes_from_vhl() > IPHeader::LEAST_LENGTH {
        Err(InternetProtocolError::UnsupportedHeaderOption)
    } else if raw_packet_len < packet_hdr.spec_ihl_bytes_from_vhl() || raw_packet_len
        < packet_hdr.total_length {
        Err(InternetProtocolError::InvalidPacketLength)
    } else if raw_packet.len() < packet_hdr.spec_ihl_bytes_from_vhl() || spec_checksum(
        raw_packet.take(packet_hdr.spec_ihl_bytes_from_vhl() as int),
    ) != 0 {
        Err(InternetProtocolError::InvalidChecksum)
    } else if packet_hdr.time_to_live == 0 {
        Err(InternetProtocolError::PacketWasDead)
    } else if spec_is_for_me(ip_addr, network_mask, packet_hdr.dst_addr) {
        Ok(ProcessMode::Me)
    } else {
        Ok(ProcessMode::AnotherHost)
    }
}

/// The length of the payload that a header announces: what the total length
/// leaves behind the header.
pub open spec fn spec_message_len(packet_hdr: IPHeader) -> usize {
    if packet_hdr.total_length >= packet_hdr.spec_ihl_bytes_from_vhl() {
        (packet_hdr.total_length - packet_hdr.spec_ihl_bytes_from_vhl()) as usize
    } else {
        0
    }
}

/// What receiving the packet in `buf` gives: for a valid packet to this host
/// the bytes behind the header, with sender, carried protocol and payload
/// length noted; for a valid packet to another host a quiet drop; else the
/// failure of the first check that fails.
pub open spec fn spec_rx(
    ip_addr: IPv4Addr,
    network_mask: IPv4Addr,
    rx_result: RxResult,
    buf: Seq<u8>,
) -> Result<(RxResult, Seq<u8>), InternetProtocolError> {
    match IPHeader::spec_from_bytes(buf) {
        None => Err(InternetProtocolError::CannotParsePacketHeader),
        Some(packet_hdr) => match spec_validate_ip_packet(
            buf,
            packet_hdr,
            ip_addr,
            network_mask,
            buf.len() as usize,
        ) {
            Err(e) => Err(e),
            Ok(ProcessMode::AnotherHost) => Err(InternetProtocolError::Ignore),
            Ok(ProcessMode::Me) => Ok(
                (
                    RxResult {
                        src_ip_addr: packet_hdr.src_addr,
                        tp_type: packet_hdr.protocol,
                        message_len: spec_message_len(packet_hdr),
                        ..rx_result
                    },
                    buf.skip(packet_hdr.spec_ihl_bytes_from_vhl() as int),
                ),
            ),
        },
    }
}

/// The header of a packet from `ip_addr` to `dst_addr` with a payload of
/// `payload_len` bytes, before its checksum is filled in.
pub open spec fn spec_tx_header(
    ip_addr: IPv4Addr,
    tp: TransportProtocol,
    dst_addr: IPv4Addr,
    payload_len: nat,
    id: u16,
) -> IPHeader {
    IPHeader {
        version_ihl: 0x45,
        type_of_service: 0,
        total_length: (IPHeader::LEAST_LENGTH + payload_len) as u16,
        identification: id,
        flg_offset: 0,
        time_to_live: 0xff,
        protocol: tp,
        checksum: 0,
        src_addr: ip_addr,
        dst_addr,
    }
}

/// The packet that carries `payload` from `ip_addr` to `dst_addr`: the header
/// with its checksum, then the payload. There is none when the packet would
/// be longer than a frame can carry or the protocol has no number.
#[verifier::opaque]
pub open spec fn spec_tx_packet(
    ip_addr: IPv4Addr,
    tp: TransportProtocol,
    dst_addr: IPv4Addr,
    payload: Seq<u8>,
    id: u16,
) -> Option<Seq<u8>> {
    let header = spec_tx_header(ip_addr, tp, dst_addr, payload.len(), id);
    if IPHeader::LEAST_LENGTH + payload.len() > MTU {
        None
    } else {
        match header.spec_to_bytes() {
            None => None,
            Some(raw) => Some(
                (IPHeader { checksum: spec_checksum(raw), ..header }).spec_to_bytes()->Some_0
                    + payload,
            ),
        }
    }
}

/// What sending `tp_payload` back to the sender noted in `rx_result` asks
/// for: the frame for the sender's hardware address when the table holds it,
/// a resolution of the sender's address when it does not.
pub open spec fn spec_tx_core(
    dev_addr: MacAddress,
    ip_addr: IPv4Addr,
    cache: Map<u32, MacAddress>,
    rx_result: RxResult,
    tp: TransportProtocol,
    tp_payload: Seq<u8>,
    id: u16,
) -> Result<OutboundView, InternetProtocolError> {
    let dst_ip = rx_result.src_ip_addr;
    match spec_tx_packet(ip_addr, tp, dst_ip, tp_payload, id) {
        None => Err(InternetProtocolError::CannotConstructPacket),
        Some(packet) => if cache.contains_key(dst_ip.0) {
            Ok(
                OutboundView::Frame {
                    frame: ethernet::protocol::spec_tx(
                        dev_addr,
                        InternetProtocol::IP,
                        cache[dst_ip.0],
                        packet,
                    ),
                },
            )
        } else {
            Ok(
                OutboundView::Resolve {
                    resolution: Resolution { target: dst_ip, polls_left: arp::RESOLVE_POLLS },
                    request: arp::protocol::spec_tx_request(dev_addr, ip_addr, dst_ip),
                    packet,
                },
            )
        },
    }
}

/// Receives an IPv4 packet: reads and validates the header and hands up the
/// bytes behind it, with the sender, the carried protocol and the payload
/// length noted in the result. A valid packet for another host is dropped
/// quietly.
pub fn rx(items: &Items, rx_result: RxResult, buf: &[u8]) -> (r: Result<
    (RxResult, Vec<u8>),
    InternetProtocolError,
>)
    ensures
        match spec_rx(items.opt.ip_addr, items.opt.network_mask, rx_result, buf@) {
            Ok((result, rest)) => r is Ok && r->Ok_0.0 == result && r->Ok_0.1@ == rest,
            Err(e) => r == Err::<(RxResult, Vec<u8>), InternetProtocolError>(e),
        },
{
    let ip_packet_hdr = IPHeader::new_from_bytes(
        buf,
        InternetProtocolError::CannotParsePacketHeader,
    )?;

    let mode = validate_ip_packet(
        buf,
        &ip_packet_hdr,
        items.opt.ip_addr,
        items.opt.network_mask,
        buf.len(),
    )?;
    match mode {
        ProcessMode::Me => {},
        ProcessMode::AnotherHost => {
            return Err(InternetProtocolError::Ignore);
        },
    }

    let header_length = ip_packet_hdr.ihl_bytes_from_vhl();
    let mut rx_result = rx_result;
    rx_result.src_ip_addr = ip_packet_hdr.src_addr;
    rx_result.tp_type = ip_packet_hdr.protocol;
    rx_result.message_len = if ip_packet_hdr.total_length >= header_length as u16 {
        (ip_packet_hdr.total_length - header_length as u16) as usize
    } else {
        0
    };
    let rest = vstd::slice::slice_to_vec(
        vstd::slice::slice_subrange(buf, header_length as usize, buf.len()),
    );
    assert(rest@ =~= buf@.skip(header_length as int));

    Ok((rx_result, rest))
}

/// Builds the packet that carries `tp_payload` back to the sender noted in
/// `rx_result`, with identification `id`, and says how to send it.
///
/// Fails with `CannotConstructPacket` exactly when header and payload
/// together are longer than a frame can carry, or `tp` has no number.
pub fn tx(
    items: &Items,
    tp: TransportProtocol,
    rx_result: RxResult,
    tp_payload: Vec<u8>,
    id: u16,
) -> (r: Result<Outbound, InternetProtocolError>)
    ensures
        match spec_tx_core(
            items.opt.dev_addr,
            items.opt.ip_addr,
            items.arp_table@,
            rx_result,
            tp,
            tp_payload@,
            id,
        ) {
            Ok(outbound) => r is Ok && r->Ok_0@ == outbound,
            Err(e) => r == Err::<Outbound, InternetProtocolError>(e),
        },
{
    let next_hop = if rx_result.src_ip_addr == IPv4Addr::broadcast() {
        None
    } else {
        // Without routing the next hop is the destination itself.
        Some(rx_result.src_ip_addr)
    };
    tx_core(items, rx_result, tp, tp_payload, next_hop, id)
}

/// Builds the packet for `tp_payload` and looks up where it goes. The next
/// hop takes no part yet: the packet goes to the sender noted in `rx_result`.
pub fn tx_core(
    items: &Items,
    rx_result: RxResult,
    tp: TransportProtocol,
    tp_payload: Vec<u8>,
    _next_hop: Option<IPv4Addr>,
    id: u16,
) -> (r: Result<Outbound, InternetProtocolError>)
    ensures
        match spec_tx_core(
            items.opt.dev_addr,
            items.opt.ip_addr,
            items.arp_table@,
            rx_result,
            tp,
            tp_payload@,
            id,
        ) {
            Ok(outbound) => r is Ok && r->Ok_0@ == outbound,
            Err(e) => r == Err::<Outbound, InternetProtocolError>(e),
        },
{
    let mut tp_payload = tp_payload;
    reveal(spec_tx_packet);
    if tp_payload.len() > MTU - IPHeader::LEAST_LENGTH as usize {
        return Err(InternetProtocolError::CannotConstructPacket);
    }
    let dst_ip = rx_result.src_ip_addr;
    let mut packet_hdr = IPHeader {
        version_ihl: IPHeader::VERSION4 * 16 + IPHeader::LEAST_LENGTH / 4,
        type_of_service: 0,
        total_length: (IPHeader::LEAST_LENGTH as usize + tp_payload.len()) as u16,
        identification: id,
        flg_offset: 0x0,
        time_to_live: 0xff,
        protocol: tp,
        checksum: 0,
        src_addr: items.opt.ip_addr,
        dst_addr: dst_ip,
    };
    assert(packet_hdr == spec_tx_header(items.opt.ip_addr, tp, dst_ip, tp_payload@.len(), id));

    let raw_packet_hdr = packet_hdr.to_bytes(InternetProtocolError::CannotConstructPacket)?;
    assert(raw_packet_hdr@.take(20) =~= raw_packet_hdr@);
    packet_hdr.checksum = calculate_checksum_u16(
        raw_packet_hdr.as_slice(),
        IPHeader::LEAST_LENGTH as u16,
        InternetProtocolError::CannotConstructPacket,
    )?;

    let mut ip_packet = packet_hdr.to_bytes(InternetProtocolError::CannotConstructPacket)?;
    ip_packet.append(&mut tp_payload);

    match items.lookup_arp_table(&rx_result.src_ip_addr) {
        Some(dst_mac_addr) => {
            match ethernet::tx(items, InternetProtocol::IP, dst_mac_addr, ip_packet) {
                Ok(frame) => Ok(Outbound::Frame { frame }),
                Err(e) => Err(InternetProtocolError::from(e)),
            }
        },
        None => {
            let (request, resolution) = arp::resolve_mac_address(items, dst_ip)?;
            Ok(Outbound::Resolve { resolution, request, packet: ip_packet })
        },
    }
}

/// Checks a packet that was received as `raw_packet` and says for whom it is.
///
/// Fails with the failure of the first check that fails, the checks taken in
/// this order: `NotIPv4Packet` for a version other than 4,
/// `UnsupportedHeaderOption` for a header with options, `InvalidPacketLength`
/// where header length or total length exceed `raw_packet_len`,
/// `InvalidChecksum`, `PacketWasDead` for a time to live of zero.
pub fn validate_ip_packet(
    raw_packet: &[u8],
    packet_hdr: &IPHeader,
    ip_addr: IPv4Addr,
    network_mask: IPv4Addr,
    raw_packet_len: usize,
) -> (r: Result<ProcessMode, InternetProtocolError>)
    ensures
        r == spec_validate_ip_packet(
            raw_packet@,
            *packet_hdr,
            ip_addr,
            network_mask,
            raw_packet_len,
        ),
{
    if packet_hdr.version_from_vhl() != IPHeader::VERSION4 {
        return Err(InternetProtocolError::NotIPv4Packet);
    }
    if packet_hdr.ihl_bytes_from_vhl() > IPHeader::LEAST_LENGTH {
        return Err(InternetProtocolError::UnsupportedHeaderOption);
    }
    // Neither the header nor the whole packet may be longer than what arrived.

    if raw_packet_len < packet_hdr.ihl_bytes_from_vhl() as usize || raw_packet_len
        < packet_hdr.total_length as usize {
        return Err(InternetProtocolError::InvalidPacketLength);
    }
    if calculate_checksum_u16(
        raw_packet,
        packet_hdr.ihl_bytes_from_vhl() as u16,
        InternetProtocolError::InvalidChecksum,
    )? != 0 {
        return Err(InternetProtocolError::InvalidChecksum);
    }
    if packet_hdr.time_to_live == 0 {
        return Err(InternetProtocolError::PacketWasDead);
    }
    // A packet to this host's own address is for this host.

    if ip_addr == packet_hdr.dst_addr {
        return Ok(ProcessMode::Me);
    }
    // So is a broadcast.

    if packet_hdr.dst_addr == ip_addr.to_broadcast(network_mask) || packet_hdr.dst_addr
        == IPv4Addr::broadcast() {
        return Ok(ProcessMode::Me);
    }
    Ok(ProcessMode::AnotherHost)
}

/// Every packet that is built for sending starts with a header of twenty
/// bytes that a receiver reads as version 4 with the fields it was built
/// from, a time to live of 255 among them, and whose checksum verifies; the
/// payload follows the header.
pub proof fn lemma_tx_packet_checksum(
    ip_addr: IPv4Addr,
    tp: TransportProtocol,
    dst_addr: IPv4Addr,
    payload: Seq<u8>,
    id: u16,
)
    requires
        spec_tx_packet(ip_addr, tp, dst_addr, payload, id) is Some,
    ensures
        spec_tx_packet(ip_addr, tp, dst_addr, payload, id)->Some_0.len() == 20 + payload.len(),
        spec_tx_packet(ip_addr, tp, dst_addr, payload, id)->Some_0.skip(20) == payload,
        spec_checksum(spec_tx_packet(ip_addr, tp, dst_addr, payload, id)->Some_0.take(20)) == 0,
        ({
            let header = IPHeader::spec_from_bytes(
                spec_tx_packet(ip_addr, tp, dst_addr, payload, id)->Some_0,
            );
            &&& header is Some
            &&& (IPHeader { checksum: 0, ..header->Some_0 }) == spec_tx_header(
                ip_addr,
                tp,
                dst_addr,
                payload.len(),
                id,
            )
            &&& header->Some_0.spec_version_from_vhl() == 4
            &&& header->Some_0.spec_ihl_bytes_from_vhl() == 20
            &&& header->Some_0.total_length == 20 + payload.len()
            &&& header->Some_0.time_to_live == 0xff
            &&& header->Some_0.protocol == tp
            &&& header->Some_0.identification == id
            &&& header->Some_0.src_addr == ip_addr
            &&& header->Some_0.dst_addr == dst_addr
        }),
{
    reveal(spec_tx_packet);
    let header = spec_tx_header(ip_addr, tp, dst_addr, payload.len(), id);
    let raw = header.spec_to_bytes()->Some_0;
    let sent = IPHeader { checksum: spec_checksum(raw), ..header };
    let bytes = sent.spec_to_bytes()->Some_0;
    let prefix = raw.take(10);
    let suffix = raw.skip(12);
    assert(raw =~= prefix + seq![0u8, 0u8] + suffix);
    assert(bytes =~= prefix + crate::byteorder_wrapper::spec_u16_be_bytes(spec_checksum(raw))
        + suffix);
    lemma_checksum_field(prefix, suffix);
    assert((bytes + payload).take(20) =~= bytes);
    assert((bytes + payload).skip(20) =~= payload);
    IPHeader::lemma_parse_serialize(sent);
    assert(IPHeader::spec_from_bytes(bytes + payload) == Some(sent)) by {
        assert(forall|i: int| 0 <= i < 20 ==> (bytes + payload)[i] == bytes[i]);
    }
}

/// A packet that passes every other check is for this host exactly when it
/// is addressed to the host's own address, to the directed broadcast address
/// of its network or to the limited broadcast address. To this host it is
/// handed up; to another host it is dropped quietly. The protocol that the
/// packet carries takes no part in this.
pub proof fn lemma_acceptance(
    ip_addr: IPv4Addr,
    network_mask: IPv4Addr,
    rx_result: RxResult,
    buf: Seq<u8>,
)
    requires
        20 <= buf.len() <= usize::MAX,
        ({
            let h = IPHeader::spec_fields(buf);
            &&& h.spec_version_from_vhl() == 4
            &&& h.spec_ihl_bytes_from_vhl() <= 20
            &&& h.total_length <= buf.len()
            &&& spec_checksum(buf.take(h.spec_ihl_bytes_from_vhl() as int)) == 0
            &&& h.time_to_live != 0
        }),
    ensures
        ({
            let h = IPHeader::spec_fields(buf);
            &&& IPHeader::spec_from_bytes(buf) == Some(h)
            &&& h.dst_addr == ip_addr ==> spec_rx(ip_addr, network_mask, rx_result, buf) is Ok
            &&& h.dst_addr == ip_addr.spec_to_broadcast(network_mask) ==> spec_rx(
                ip_addr,
                network_mask,
                rx_result,
                buf,
            ) is Ok
            &&& h.dst_addr == IPv4Addr::spec_broadcast() ==> spec_rx(
                ip_addr,
                network_mask,
                rx_result,
                buf,
            ) is Ok
            &&& !spec_is_for_me(ip_addr, network_mask, h.dst_addr) ==> spec_validate_ip_packet(
                buf,
                h,
                ip_addr,
                network_mask,
                buf.len() as usize,
            ) == Ok::<ProcessMode, InternetProtocolError>(ProcessMode::AnotherHost) && spec_rx(
                ip_addr,
                network_mask,
                rx_result,
                buf,
            ) == Err::<(RxResult, Seq<u8>), InternetProtocolError>(InternetProtocolError::Ignore)
        }),
{
}

/// A packet whose time to live is zero and that passes every check before
/// that one was dead, whatever protocol it carries.
pub proof fn lemma_dead_packet(
    ip_addr: IPv4Addr,
    network_mask: IPv4Addr,
    rx_result: RxResult,
    buf: Seq<u8>,
)
    requires
        20 <= buf.len() <= usize::MAX,
        ({
            let h = IPHeader::spec_fields(buf);
            &&& h.spec_version_from_vhl() == 4
            &&& h.spec_ihl_bytes_from_vhl() <= 20
            &&& h.total_length <= buf.len()
            &&& spec_checksum(buf.take(h.spec_ihl_bytes_from_vhl() as int)) == 0
            &&& h.time_to_live == 0
        }),
    ensures
        spec_rx(ip_addr, network_mask, rx_result, buf) == Err::<
            (RxResult, Seq<u8>),
            InternetProtocolError,
        >(InternetProtocolError::PacketWasDead),
{
}

/// One flipped bit in the header of a packet that is accepted makes the
/// packet fail. Unless the bit is one of version and header length, which
/// byte 0 holds, the failure is `InvalidChecksum`; only a flipped bit of the
/// total length can make the length invalid, which is checked before the
/// checksum.
pub proof fn lemma_flipped_bit(
    ip_addr: IPv4Addr,
    network_mask: IPv4Addr,
    rx_result: RxResult,
    buf: Seq<u8>,
    i: int,
    flipped: u8,
)
    requires
        spec_rx(ip_addr, network_mask, rx_result, buf) is Ok,
        buf.len() <= usize::MAX,
        1 <= i < IPHeader::spec_from_bytes(buf)->Some_0.spec_ihl_bytes_from_vhl(),
        spec_one_bit_apart(buf[i], flipped),
    ensures
        ({
            let r = spec_rx(ip_addr, network_mask, rx_result, buf.update(i, flipped));
            &&& r is Err
            &&& r->Err_0 == InternetProtocolError::InvalidChecksum || (r->Err_0
                == InternetProtocolError::InvalidPacketLength && (i == 2 || i == 3))
        }),
{
    let header = IPHeader::spec_from_bytes(buf)->Some_0;
    let n = header.spec_ihl_bytes_from_vhl() as int;
    let changed = buf.update(i, flipped);
    assert(changed.take(n) =~= buf.take(n).update(i, flipped));
    lemma_one_bit_breaks_checksum(buf.take(n), i, flipped);
}

} // verus!
