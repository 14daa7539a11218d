//! The ICMP echo responder.

use crate::checksum::{calculate_checksum_u16, lemma_checksum_field, spec_checksum};
use crate::internet::ip;
use crate::internet::ip::IPv4Addr;
use crate::link::MacAddress;
use crate::protocol_stack::{spec_outbound_view, Items, Outbound, OutboundView, RxResult};
use crate::transport::icmp::{Message, MessageType};
use crate::transport::protocol::spec_message;
use crate::transport::{TransportProtocol, TransportProtocolError};
use vstd::prelude::*;

verus! {

/// The message of kind `msg_type` that answers `received_msg`: code and body
/// are those that were received, the checksum is that of the answer.
pub open spec fn spec_answer(msg_type: MessageType, received_msg: Message) -> Message {
    let unsummed = Message {
        ty: msg_type,
        code: received_msg.code,
        checksum: 0,
        data: received_msg.data,
    };
    Message { checksum: spec_checksum(unsummed.spec_to_bytes()), ..unsummed }
}

/// What answering `received_msg` asks for: the answer, sent as an IPv4
/// packet to the sender noted in `rx_result`.
pub open spec fn spec_tx(
    dev_addr: MacAddress,
    ip_addr: IPv4Addr,
    cache: Map<u32, MacAddress>,
    msg_type: MessageType,
    received_msg: Message,
    rx_result: RxResult,
    id: u16,
) -> Result<OutboundView, TransportProtocolError> {
    match ip::protocol::spec_tx_core(
        dev_addr,
        ip_addr,
        cache,
        rx_result,
        TransportProtocol::ICMP,
        spec_answer(msg_type, received_msg).spec_to_bytes(),
        id,
    ) {
        Ok(outbound) => Ok(outbound),
        Err(e) => Err(TransportProtocolError::IPError { e }),
    }
}

/// What receiving the message in `buf` gives: the message, the bytes behind
/// its header and, for an echo request, the transmission of the echo reply.
/// A message that cannot be read or whose checksum does not verify fails.
pub open spec fn spec_rx(
    dev_addr: MacAddress,
    ip_addr: IPv4Addr,
    cache: Map<u32, MacAddress>,
    rx_result: RxResult,
    buf: Seq<u8>,
    id: u16,
) -> Result<(Message, Seq<u8>, Option<OutboundView>), TransportProtocolError> {
    let message = spec_message(rx_result, buf);
    if message.len() > 0xffff {
        Err(TransportProtocolError::CannotParseICMPMessage)
    } else {
        match Message::spec_from_bytes(message) {
            None => Err(TransportProtocolError::CannotParseICMPMessage),
            Some(header) => if spec_checksum(message) != 0 {
                Err(TransportProtocolError::InvalidChecksum)
            } else if header.ty == MessageType::EchoRequest {
                match spec_tx(
                    dev_addr,
                    ip_addr,
                    cache,
                    MessageType::EchoReply,
                    header,
                    rx_result,
                    id,
                ) {
                    Ok(outbound) => Ok(
                        (header, message.skip(Message::LENGTH as int), Some(outbound)),
                    ),
                    Err(e) => Err(e),
                }
            } else {
                Ok((header, message.skip(Message::LENGTH as int), None))
            },
        }
    }
}

/// Receives an ICMP message and answers an echo request.
///
/// The message is what `buf` holds up to the payload length noted in
/// `rx_result`. The third part of the result is the transmission of the echo
/// reply, if the message is an echo request; `id` is the identification of
/// the packet that carries it.
///
/// Fails with `CannotParseICMPMessage` for a message that is too short, of an
/// unknown type, or longer than a packet can be, and with `InvalidChecksum`
/// for a message that does not sum to zero.
pub fn rx(items: &Items, rx_result: RxResult, buf: &[u8], id: u16) -> (r: Result<
    (Message, Vec<u8>, Option<Outbound>),
    TransportProtocolError,
>)
    ensures
        match spec_rx(
            items.opt.dev_addr,
            items.opt.ip_addr,
            items.arp_table@,
            rx_result,
            buf@,
            id,
        ) {
            Ok((header, rest, outbound)) => r is Ok && r->Ok_0.0 == header && r->Ok_0.1@ == rest
                && spec_outbound_view(r->Ok_0.2) == outbound,
            Err(e) => r == Err::<(Message, Vec<u8>, Option<Outbound>), TransportProtocolError>(e),
        },
{
    let message_len = if rx_result.message_len < buf.len() {
        rx_result.message_len
    } else {
        buf.len()
    };
    if message_len > 0xffff {
        return Err(TransportProtocolError::CannotParseICMPMessage);
    }
    let message = vstd::slice::slice_subrange(buf, 0, message_len);
    assert(message@ =~= spec_message(rx_result, buf@));

    let header = Message::new_from_bytes(message, TransportProtocolError::CannotParseICMPMessage)?;
    assert(message@.take(message_len as int) =~= message@);
    let cksum = calculate_checksum_u16(
        message,
        message_len as u16,
        TransportProtocolError::InvalidChecksum,
    )?;
    if cksum != 0 {
        return Err(TransportProtocolError::InvalidChecksum);
    }
    let rest = vstd::slice::slice_to_vec(
        vstd::slice::slice_subrange(message, Message::LENGTH, message_len),
    );
    assert(rest@ =~= message@.skip(Message::LENGTH as int));

    let outbound = if header.ty == MessageType::EchoRequest {
        Some(tx(items, MessageType::EchoReply, header, rx_result, id)?)
    } else {
        None
    };

    Ok((header, rest, outbound))
}

/// Builds the message of kind `msg_type` that answers `received_msg`, and
/// the packet with identification `id` that carries it to the sender noted
/// in `rx_result`.
///
/// Fails with `IPError` exactly when the internet layer cannot build the
/// packet.
pub fn tx(
    items: &Items,
    msg_type: MessageType,
    received_msg: Message,
    rx_result: RxResult,
    id: u16,
) -> (r: Result<Outbound, TransportProtocolError>)
    ensures
        match spec_tx(
            items.opt.dev_addr,
            items.opt.ip_addr,
            items.arp_table@,
            msg_type,
            received_msg,
            rx_result,
            id,
        ) {
            Ok(outbound) => r is Ok && r->Ok_0@ == outbound,
            Err(e) => r == Err::<Outbound, TransportProtocolError>(e),
        },
{
    let mut reply: Message = Default::default();
    reply.ty = msg_type;
    reply.code = received_msg.code;
    reply.data = received_msg.data;

    let before_buf = reply.to_bytes(TransportProtocolError::CannotConstructICMPMessage)?;
    proof {
        Message::lemma_length(reply);
        assert(before_buf@.take(before_buf@.len() as int) =~= before_buf@);
    }
    let cksum = calculate_checksum_u16(
        before_buf.as_slice(),
        before_buf.len() as u16,
        TransportProtocolError::InvalidChecksum,
    )?;
    reply.checksum = cksum;

    let payload = reply.to_bytes(TransportProtocolError::CannotConstructICMPMessage)?;
    match ip::tx(items, TransportProtocol::ICMP, rx_result, payload, id) {
        Ok(outbound) => Ok(outbound),
        Err(e) => Err(TransportProtocolError::IPError { e }),
    }
}

/// Every answer sums to zero, as a receiver will check.
pub proof fn lemma_answer_checksum(msg_type: MessageType, received_msg: Message)
    ensures
        spec_checksum(spec_answer(msg_type, received_msg).spec_to_bytes()) == 0,
{
    let answer = spec_answer(msg_type, received_msg);
    let unsummed = Message { checksum: 0, ..answer };
    let raw = unsummed.spec_to_bytes();
    let bytes = answer.spec_to_bytes();
    let prefix = raw.take(2);
    let suffix = raw.skip(4);
    assert(raw =~= prefix + seq![0u8, 0u8] + suffix);
    assert(bytes =~= prefix + crate::byteorder_wrapper::spec_u16_be_bytes(answer.checksum)
        + suffix);
    lemma_checksum_field(prefix, suffix);
}

/// An echo request that arrives intact is always answered: with an echo
/// reply that repeats code, identifier, sequence number and data, in a packet
/// from this host to the request's sender.
pub proof fn lemma_echo_is_answered(
    dev_addr: MacAddress,
    ip_addr: IPv4Addr,
    cache: Map<u32, MacAddress>,
    rx_result: RxResult,
    buf: Seq<u8>,
    id: u16,
)
    requires
        spec_message(rx_result, buf).len() <= 0xffff,
        Message::spec_from_bytes(spec_message(rx_result, buf)) is Some,
        Message::spec_from_bytes(spec_message(rx_result, buf))->Some_0.ty
            == MessageType::EchoRequest,
        spec_checksum(spec_message(rx_result, buf)) == 0,
    ensures
        spec_rx(dev_addr, ip_addr, cache, rx_result, buf, id) is Ok,
        spec_rx(dev_addr, ip_addr, cache, rx_result, buf, id)->Ok_0.2 is Some,
        ({
            let request = Message::spec_from_bytes(spec_message(rx_result, buf))->Some_0;
            let answer = spec_answer(MessageType::EchoReply, request);
            let packet = ip::protocol::spec_tx_packet(
                ip_addr,
                TransportProtocol::ICMP,
                rx_result.src_ip_addr,
                answer.spec_to_bytes(),
                id,
            );
            &&& answer.ty == MessageType::EchoReply
            &&& answer.code == request.code
            &&& answer.data == request.data
            &&& packet is Some
            &&& match spec_rx(dev_addr, ip_addr, cache, rx_result, buf, id)->Ok_0.2->Some_0 {
                OutboundView::Frame { frame } => cache.contains_key(rx_result.src_ip_addr.0)
                    && frame == crate::link::ethernet::protocol::spec_tx(
                    dev_addr,
                    crate::internet::InternetProtocol::IP,
                    cache[rx_result.src_ip_addr.0],
                    packet->Some_0,
                ),
                OutboundView::Resolve { resolution, request: _, packet: held } => {
                    &&& !cache.contains_key(rx_result.src_ip_addr.0)
                    &&& resolution.target == rx_result.src_ip_addr
                    &&& held == packet->Some_0
                },
            }
        }),
{
    reveal(ip::protocol::spec_tx_packet);
    let request = Message::spec_from_bytes(spec_message(rx_result, buf))->Some_0;
    let answer = spec_answer(MessageType::EchoReply, request);
    Message::lemma_serialize_parse_len(spec_message(rx_result, buf));
    Message::lemma_length(answer);
}

} // verus!
