//! The ARP resolver: learning from what arrives, answering requests for this
//! host's address, and asking for addresses that are not known yet.

use crate::internet::arp::{ARPHeader, Operation};
use crate::internet::ip::IPv4Addr;
use crate::internet::{InternetProtocol, InternetProtocolError};
use crate::link::ethernet;
use crate::link::{LinkProtocol, MacAddress};
use crate::protocol_stack::{Items, RxResult};
use vstd::prelude::*;

verus! {

/// How often the table is looked up before a resolution is given up.
pub const RESOLVE_POLLS: u8 = 5;

/// The time between two lookups of one resolution, in seconds.
pub const RESOLVE_INTERVAL_SECS: u64 = 1;

/// A resolution under way: whose hardware address is wanted, and how many
/// lookups are left before giving up.
#[derive(Debug, Clone, Copy, PartialEq, Eq, Structural)]
pub struct Resolution {
    pub target: IPv4Addr,
    pub polls_left: u8,
}

/// What one lookup of a resolution under way decides.
#[derive(Debug, Clone, Copy, PartialEq, Eq)]
pub enum ResolveStep {
    /// The table holds the address.
    Resolved { mac: MacAddress },
    /// Not yet: wait `RESOLVE_INTERVAL_SECS` seconds, then look up again with
    /// `next`.
    Wait { next: Resolution },
    /// Nobody answered in time.
    Failed { e: InternetProtocolError },
}

/// What receiving an ARP packet leaves behind and hands on.
pub struct ArpOutcome {
    /// The table after the packet.
    pub cache: Map<u32, MacAddress>,
    /// What the layers above are told.
    pub result: RxResult,
    /// The bytes behind the packet.
    pub rest: Seq<u8>,
    /// The frame to answer with, if the packet asks for this host's address.
    pub reply: Option<Seq<u8>>,
}

/// The request that asks for the hardware address of `target_ip`.
pub open spec fn spec_request(dev_addr: MacAddress, ip_addr: IPv4Addr, target_ip: IPv4Addr)
    -> ARPHeader {
    ARPHeader {
        link_type: LinkProtocol::Ethernet,
        internet_type: InternetProtocol::IP,
        link_addr_length: 6,
        internet_addr_length: 4,
        operation: Operation::Request,
        src_link_addr: dev_addr,
        src_internet_addr: ip_addr,
        dst_link_addr: MacAddress::spec_zero(),
        dst_internet_addr: target_ip,
    }
}

/// The broadcast frame that asks for the hardware address of `target_ip`.
pub open spec fn spec_tx_request(dev_addr: MacAddress, ip_addr: IPv4Addr, target_ip: IPv4Addr)
    -> Seq<u8> {
    ethernet::protocol::spec_tx(
        dev_addr,
        InternetProtocol::ARP,
        MacAddress::spec_broadcast(),
        spec_request(dev_addr, ip_addr, target_ip).spec_to_bytes()->Some_0,
    )
}

/// The packet that answers `received` with operation `op`: address spaces and
/// lengths are kept, the sender of `received` becomes the target, and this
/// host's addresses stand as the sender's.
pub open spec fn spec_answer(
    dev_addr: MacAddress,
    ip_addr: IPv4Addr,
    op: Operation,
    received: ARPHeader,
) -> ARPHeader {
    ARPHeader {
        link_type: received.link_type,
        internet_type: received.internet_type,
        link_addr_length: received.link_addr_length,
        internet_addr_length: received.internet_addr_length,
        operation: op,
        src_link_addr: dev_addr,
        src_internet_addr: ip_addr,
        dst_link_addr: received.src_link_addr,
        dst_internet_addr: received.src_internet_addr,
    }
}

/// The frame that carries the answer to `received` to its sender. There is
/// none where the answer cannot be written.
pub open spec fn spec_tx(
    dev_addr: MacAddress,
    ip_addr: IPv4Addr,
    op: Operation,
    received: ARPHeader,
) -> Result<Seq<u8>, InternetProtocolError> {
    match spec_answer(dev_addr, ip_addr, op, received).spec_to_bytes() {
        Some(bytes) => Ok(
            ethernet::protocol::spec_tx(
                dev_addr,
                InternetProtocol::ARP,
                received.src_link_addr,
                bytes,
            ),
        ),
        None => Err(InternetProtocolError::CannotConstructPacket),
    }
}

/// What receiving the ARP packet in `buf` does. A packet that cannot be read
/// changes nothing. Any other packet teaches the table its sender's
/// addresses; a request for this host's address is answered; the sender's
/// protocol address is handed up.
pub open spec fn spec_rx(
    dev_addr: MacAddress,
    ip_addr: IPv4Addr,
    cache: Map<u32, MacAddress>,
    rx_result: RxResult,
    buf: Seq<u8>,
) -> Result<ArpOutcome, InternetProtocolError> {
    match ARPHeader::spec_from_bytes(buf) {
        None => Err(InternetProtocolError::CannotParsePacketHeader),
        Some(packet) => Ok(
            ArpOutcome {
                cache: cache.insert(packet.src_internet_addr.0, packet.src_link_addr),
                result: RxResult { src_ip_addr: packet.src_internet_addr, ..rx_result },
                rest: buf.skip(ARPHeader::LENGTH as int),
                reply: if packet.operation == Operation::Request && packet.dst_internet_addr
                    == ip_addr {
                    Some(spec_tx(dev_addr, ip_addr, Operation::Reply, packet)->Ok_0)
                } else {
                    None
                },
            },
        ),
    }
}

/// What one lookup decides for a resolution under way: with no lookup left
/// it has failed; else the table's entry for the target resolves it; else
/// the interval between two lookups is waited and one lookup fewer is left.
pub open spec fn spec_resolve_poll(cache: Map<u32, MacAddress>, state: Resolution) -> ResolveStep {
    if state.polls_left == 0 {
        ResolveStep::Failed {
            e: InternetProtocolError::CannotResolveMACAddressFrom { unknown_ip: state.target },
        }
    } else if cache.contains_key(state.target.0) {
        ResolveStep::Resolved { mac: cache[state.target.0] }
    } else {
        ResolveStep::Wait {
            next: Resolution { target: state.target, polls_left: (state.polls_left - 1) as u8 },
        }
    }
}

/// What `polls` lookups in a row decide while the table does not change.
pub open spec fn spec_resolve_after(cache: Map<u32, MacAddress>, state: Resolution, polls: nat)
    -> ResolveStep
    decreases polls,
{
    if polls == 0 {
        ResolveStep::Wait { next: state }
    } else {
        match spec_resolve_poll(cache, state) {
            ResolveStep::Wait { next } => spec_resolve_after(cache, next, (polls - 1) as nat),
            decided => decided,
        }
    }
}

/// Starts the resolution of `dst_ip`: the request to broadcast once, and the
/// state with which to look the table up afterwards. This never fails.
pub fn resolve_mac_address(items: &Items, dst_ip: IPv4Addr) -> (r: Result<
    (Vec<u8>, Resolution),
    InternetProtocolError,
>)
    ensures
        r is Ok,
        r->Ok_0.0@ == spec_tx_request(items.opt.dev_addr, items.opt.ip_addr, dst_ip),
        r->Ok_0.1 == (Resolution { target: dst_ip, polls_left: RESOLVE_POLLS }),
{
    let request = tx_request(items, dst_ip)?;
    Ok((request, Resolution { target: dst_ip, polls_left: RESOLVE_POLLS }))
}

/// Looks the table up once for a resolution under way.
pub fn resolve_poll(items: &Items, state: Resolution) -> (step: ResolveStep)
    ensures
        step == spec_resolve_poll(items.arp_table@, state),
{
    if state.polls_left == 0 {
        return ResolveStep::Failed {
            e: InternetProtocolError::CannotResolveMACAddressFrom { unknown_ip: state.target },
        };
    }
    match items.lookup_arp_table(&state.target) {
        Some(mac) => ResolveStep::Resolved { mac },
        None => ResolveStep::Wait {
            next: Resolution { target: state.target, polls_left: state.polls_left - 1 },
        },
    }
}

/// A resolution whose target never enters the table waits at each of its
/// five lookups and has failed at the next, naming the target.
pub proof fn lemma_resolution_times_out(cache: Map<u32, MacAddress>, target: IPv4Addr)
    requires
        !cache.contains_key(target.0),
    ensures
        forall|polls: nat|
            polls <= RESOLVE_POLLS ==> #[trigger] spec_resolve_after(
                cache,
                Resolution { target, polls_left: RESOLVE_POLLS },
                polls,
            ) == (ResolveStep::Wait {
                next: Resolution { target, polls_left: (RESOLVE_POLLS - polls) as u8 },
            }),
        spec_resolve_after(cache, Resolution { target, polls_left: RESOLVE_POLLS }, 6)
            == (ResolveStep::Failed {
            e: InternetProtocolError::CannotResolveMACAddressFrom { unknown_ip: target },
        }),
{
    reveal_with_fuel(spec_resolve_after, 7);
}

/// Learning is idempotent. When the same packet arrives twice in a row, the
/// table holds the sender's hardware address after the first time and is
/// not changed any more by the second; and each of the two is answered with
/// the same single reply if it is a request for this host's address, and
/// with none if it is not.
pub proof fn lemma_learning_is_idempotent(
    dev_addr: MacAddress,
    ip_addr: IPv4Addr,
    cache: Map<u32, MacAddress>,
    rx_result: RxResult,
    buf: Seq<u8>,
)
    requires
        ARPHeader::spec_from_bytes(buf) is Some,
    ensures
        spec_rx(dev_addr, ip_addr, cache, rx_result, buf) is Ok,
        ({
            let packet = ARPHeader::spec_from_bytes(buf)->Some_0;
            let first = spec_rx(dev_addr, ip_addr, cache, rx_result, buf)->Ok_0;
            let second = spec_rx(dev_addr, ip_addr, first.cache, rx_result, buf);
            &&& first.cache.contains_key(packet.src_internet_addr.0)
            &&& first.cache[packet.src_internet_addr.0] == packet.src_link_addr
            &&& second is Ok
            &&& second->Ok_0.cache == first.cache
            &&& second->Ok_0.reply == first.reply
            &&& first.reply is Some <==> packet.operation == Operation::Request
                && packet.dst_internet_addr == ip_addr
            &&& first.reply is Some ==> first.reply == Some(
                ethernet::protocol::spec_tx(
                    dev_addr,
                    InternetProtocol::ARP,
                    packet.src_link_addr,
                    spec_answer(
                        dev_addr,
                        ip_addr,
                        Operation::Reply,
                        packet,
                    ).spec_to_bytes()->Some_0,
                ),
            )
        }),
{
    let packet = ARPHeader::spec_from_bytes(buf)->Some_0;
    let first = spec_rx(dev_addr, ip_addr, cache, rx_result, buf)->Ok_0;
    let second = spec_rx(dev_addr, ip_addr, first.cache, rx_result, buf)->Ok_0;
    assert(second.cache =~= first.cache);
}

/// Receives an ARP packet: learns the sender's addresses, answers a request
/// for this host's address, and hands the sender's protocol address up.
///
/// The third part of the result is the frame to answer with, if any. A packet
/// that cannot be read changes nothing.
pub fn rx(items: &mut Items, rx_result: RxResult, buf: &[u8]) -> (r: Result<
    (RxResult, Vec<u8>, Option<Vec<u8>>),
    InternetProtocolError,
>)
    ensures
        final(items).opt == old(items).opt,
        final(items).tcp_connection == old(items).tcp_connection,
        match spec_rx(
            old(items).opt.dev_addr,
            old(items).opt.ip_addr,
            old(items).arp_table@,
            rx_result,
            buf@,
        ) {
            Ok(outcome) => r is Ok && r->Ok_0.0 == outcome.result && r->Ok_0.1@ == outcome.rest
                && spec_frame_view(r->Ok_0.2) == outcome.reply && final(items).arp_table@
                == outcome.cache,
            Err(e) => r == Err::<(RxResult, Vec<u8>, Option<Vec<u8>>), InternetProtocolError>(e)
                && final(items).arp_table@ == old(items).arp_table@,
        },
{
    broadcast use vstd::std_specs::hash::group_hash_axioms;

    let arp_packet_hdr = ARPHeader::new_from_bytes(
        buf,
        InternetProtocolError::CannotParsePacketHeader,
    )?;
    let rest = vstd::slice::slice_to_vec(
        vstd::slice::slice_subrange(buf, ARPHeader::LENGTH, buf.len()),
    );
    assert(rest@ =~= buf@.skip(ARPHeader::LENGTH as int));

    // The entry is in the table before the answer goes out.
    items.arp_table.insert(arp_packet_hdr.src_internet_addr.0, arp_packet_hdr.src_link_addr);

    let reply = if arp_packet_hdr.operation == Operation::Request
        && arp_packet_hdr.dst_internet_addr == items.opt.ip_addr {
        Some(tx_reply(items, &arp_packet_hdr)?)
    } else {
        None
    };

    let mut rx_result = rx_result;
    rx_result.src_ip_addr = arp_packet_hdr.src_internet_addr;

    Ok((rx_result, rest, reply))
}

/// The bytes of a frame that may be there.
pub open spec fn spec_frame_view(frame: Option<Vec<u8>>) -> Option<Seq<u8>> {
    match frame {
        Some(frame) => Some(frame@),
        None => None,
    }
}

/// Builds the broadcast frame that asks for the hardware address of
/// `target_ip`. This never fails.
pub fn tx_request(items: &Items, target_ip: IPv4Addr) -> (r: Result<Vec<u8>, InternetProtocolError>)
    ensures
        r is Ok,
        r->Ok_0@ == spec_tx_request(items.opt.dev_addr, items.opt.ip_addr, target_ip),
{
    let mut send_arp_packet: ARPHeader = Default::default();

    send_arp_packet.operation = Operation::Request;
    send_arp_packet.src_internet_addr = items.opt.ip_addr;
    send_arp_packet.src_link_addr = items.opt.dev_addr;
    send_arp_packet.dst_internet_addr = target_ip;
    send_arp_packet.link_type = LinkProtocol::Ethernet;
    send_arp_packet.internet_type = InternetProtocol::IP;
    send_arp_packet.link_addr_length = 6;
    send_arp_packet.internet_addr_length = 4;
    assert(send_arp_packet == spec_request(items.opt.dev_addr, items.opt.ip_addr, target_ip));

    let payload = send_arp_packet.to_bytes(InternetProtocolError::CannotConstructPacket)?;
    match ethernet::tx(items, InternetProtocol::ARP, MacAddress::broadcast(), payload) {
        Ok(frame) => Ok(frame),
        Err(e) => Err(InternetProtocolError::from(e)),
    }
}

/// Builds the frame that answers the request `receive_arp_packet`.
///
/// Fails with `CannotConstructPacket` exactly when the request is not for
/// IPv4 addresses.
pub fn tx_reply(items: &Items, receive_arp_packet: &ARPHeader) -> (r: Result<
    Vec<u8>,
    InternetProtocolError,
>)
    ensures
        match spec_tx(
            items.opt.dev_addr,
            items.opt.ip_addr,
            Operation::Reply,
            *receive_arp_packet,
        ) {
            Ok(frame) => r is Ok && r->Ok_0@ == frame,
            Err(e) => r == Err::<Vec<u8>, InternetProtocolError>(e),
        },
{
    tx(items, Operation::Reply, receive_arp_packet)
}

/// Builds the frame that answers `receive_arp_packet` with operation `op`.
///
/// Fails with `CannotConstructPacket` exactly when the packet is not for
/// IPv4 addresses.
pub fn tx(items: &Items, op: Operation, receive_arp_packet: &ARPHeader) -> (r: Result<
    Vec<u8>,
    InternetProtocolError,
>)
    ensures
        match spec_tx(items.opt.dev_addr, items.opt.ip_addr, op, *receive_arp_packet) {
            Ok(frame) => r is Ok && r->Ok_0@ == frame,
            Err(e) => r == Err::<Vec<u8>, InternetProtocolError>(e),
        },
{
    let mut send_arp_packet: ARPHeader = Default::default();

    // Most of the answer repeats what was received.
    send_arp_packet.link_type = receive_arp_packet.link_type;
    send_arp_packet.internet_type = receive_arp_packet.internet_type;
    send_arp_packet.internet_addr_length = receive_arp_packet.internet_addr_length;
    send_arp_packet.link_addr_length = receive_arp_packet.link_addr_length;

    // Sender and target change places.
    send_arp_packet.dst_link_addr = receive_arp_packet.src_link_addr;
    send_arp_packet.dst_internet_addr = receive_arp_packet.src_internet_addr;

    send_arp_packet.operation = op;

    // This host's own addresses are what the answer tells.
    send_arp_packet.src_link_addr = items.opt.dev_addr;
    send_arp_packet.src_internet_addr = items.opt.ip_addr;
    assert(send_arp_packet == spec_answer(
        items.opt.dev_addr,
        items.opt.ip_addr,
        op,
        *receive_arp_packet,
    ));

    let payload = send_arp_packet.to_bytes(InternetProtocolError::CannotConstructPacket)?;
    match ethernet::tx(items, InternetProtocol::ARP, send_arp_packet.dst_link_addr, payload) {
        Ok(frame) => Ok(frame),
        Err(e) => Err(InternetProtocolError::from(e)),
    }
}

} // verus!
