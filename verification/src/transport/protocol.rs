//! The transport protocols the stack tells apart, and how the layer fails.

use crate::internet::InternetProtocolError;
use crate::option::PeachPSOption;
use crate::protocol_stack::{spec_outbound_view, Items, Outbound, OutboundView, RxResult};
use crate::link::MacAddress;
use crate::transport::tcp::ProtocolControlBlock;
use crate::transport::{icmp, tcp};
use vstd::prelude::*;
use vstd::std_specs::convert::FromSpecImpl;

verus! {

/// A protocol carried in an IPv4 packet, named by the header's protocol field.
#[derive(Debug, PartialEq, Eq, Structural, PartialOrd, Ord, Hash, Clone, Copy)]
pub enum TransportProtocol {
    ICMP,
    TCP,
    UDP,
    /// Any protocol that the stack does not handle.
    UnAssigned,
}

/// A failure of the transport layer.
#[derive(Debug, Clone, Copy, PartialEq, Eq, Structural)]
pub enum TransportProtocolError {
    /// The bytes are no ICMP message.
    CannotParseICMPMessage,
    /// The bytes are no TCP segment.
    CannotParseTCPSegment,
    /// The segment is well formed and outside the configured filter.
    Ignore,
    /// The ICMP message could not be built.
    CannotConstructICMPMessage,
    /// The checksum does not verify.
    InvalidChecksum,
    /// The internet layer failed.
    IPError { e: InternetProtocolError },
}

/// The message within `buf`: as many of its bytes as the packet announced as
/// payload.
pub open spec fn spec_message(rx_result: crate::protocol_stack::RxResult, buf: Seq<u8>) -> Seq<u8> {
    if rx_result.message_len < buf.len() {
        buf.take(rx_result.message_len as int)
    } else {
        buf
    }
}

/// What the transport layer makes of a packet's payload.
pub struct TransportOutcome {
    /// The connection table afterwards.
    pub table: Seq<ProtocolControlBlock>,
    /// The data behind the transport header.
    pub data: Seq<u8>,
    /// The transmission that answers, if any.
    pub outbound: Option<OutboundView>,
}

/// What receiving the payload `buf` of a packet gives. A payload of a
/// protocol outside the configured filter is dropped quietly, and so is one
/// of a protocol that the stack does not handle. ICMP and TCP are handled as
/// their layers say.
pub open spec fn spec_rx(
    opt: PeachPSOption,
    cache: Map<u32, MacAddress>,
    table: Seq<ProtocolControlBlock>,
    ip_result: RxResult,
    buf: Seq<u8>,
    iss: u32,
    id: u16,
) -> Result<TransportOutcome, TransportProtocolError> {
    if !opt.spec_allows_transport(ip_result.tp_type) {
        Err(TransportProtocolError::Ignore)
    } else {
        match ip_result.tp_type {
            TransportProtocol::ICMP => match icmp::protocol::spec_rx(
                opt.dev_addr,
                opt.ip_addr,
                cache,
                ip_result,
                buf,
                id,
            ) {
                Ok((_, rest, outbound)) => Ok(TransportOutcome { table, data: rest, outbound }),
                Err(e) => Err(e),
            },
            TransportProtocol::TCP => match tcp::protocol::spec_rx(
                opt.dev_addr,
                opt.ip_addr,
                cache,
                table,
                ip_result,
                buf,
                iss,
                id,
            ) {
                Ok((_, rest, outcome)) => Ok(
                    TransportOutcome {
                        table: outcome.table,
                        data: rest,
                        outbound: outcome.outbound,
                    },
                ),
                Err(e) => Err(e),
            },
            _ => Err(TransportProtocolError::Ignore),
        }
    }
}

/// Receives the payload of a packet: drops what the configured filter does
/// not let through, and hands ICMP and TCP to their layers.
///
/// `iss` is the initial send sequence number for a connection that a segment
/// opens, `id` the identification of the packet that carries an answer. The
/// result is the data behind the transport header and the transmission of
/// the answer, if there is one. On failure the tables stay as they are.
pub fn rx(items: &mut Items, ip_result: RxResult, buf: &[u8], iss: u32, id: u16) -> (r: Result<
    (Vec<u8>, Option<Outbound>),
    TransportProtocolError,
>)
    ensures
        final(items).opt == old(items).opt,
        final(items).arp_table == old(items).arp_table,
        match spec_rx(
            old(items).opt,
            old(items).arp_table@,
            old(items).tcp_connection@,
            ip_result,
            buf@,
            iss,
            id,
        ) {
            Ok(outcome) => r is Ok && r->Ok_0.0@ == outcome.data && spec_outbound_view(r->Ok_0.1)
                == outcome.outbound && final(items).tcp_connection@ == outcome.table,
            Err(e) => r == Err::<(Vec<u8>, Option<Outbound>), TransportProtocolError>(e)
                && final(items).tcp_connection@ == old(items).tcp_connection@,
        },
        tcp::protocol::spec_table_wf(old(items).tcp_connection@) && ip_result.src_ip_addr
            != crate::internet::ip::IPv4Addr::spec_any() ==> tcp::protocol::spec_table_wf(
            final(items).tcp_connection@,
        ),
{
    if !items.opt.allows_transport(ip_result.tp_type) {
        return Err(TransportProtocolError::Ignore);
    }
    match ip_result.tp_type {
        TransportProtocol::ICMP => {
            let (_message_header, rest, outbound) = icmp::rx(items, ip_result, buf, id)?;
            Ok((rest, outbound))
        },
        TransportProtocol::TCP => {
            let (_segment_header, rest, outbound) = tcp::rx(items, ip_result, buf, iss, id)?;
            Ok((rest, outbound))
        },
        _ => Err(TransportProtocolError::Ignore),
    }
}

impl TransportProtocol {
    /// The protocol of a protocol number: 1, 6 and 17 are ICMP, TCP and UDP;
    /// every other number stands for a protocol that the stack does not
    /// handle.
    pub open spec fn spec_from_u8(v: u8) -> TransportProtocol {
        if v == 1 {
            TransportProtocol::ICMP
        } else if v == 6 {
            TransportProtocol::TCP
        } else if v == 17 {
            TransportProtocol::UDP
        } else {
            TransportProtocol::UnAssigned
        }
    }

    /// The protocol number of a protocol; an unassigned one has none.
    pub open spec fn spec_to_u8(self) -> Option<u8> {
        match self {
            TransportProtocol::ICMP => Some(1u8),
            TransportProtocol::TCP => Some(6u8),
            TransportProtocol::UDP => Some(17u8),
            TransportProtocol::UnAssigned => None,
        }
    }

    /// The protocol of a protocol number. Every number has one: those that
    /// the stack does not handle read as `UnAssigned`.
    #[verifier::when_used_as_spec(spec_from_u8)]
    pub fn from_u8(v: u8) -> (r: TransportProtocol)
        ensures
            r == Self::spec_from_u8(v),
    {
        if v == 1 {
            TransportProtocol::ICMP
        } else if v == 6 {
            TransportProtocol::TCP
        } else if v == 17 {
            TransportProtocol::UDP
        } else {
            TransportProtocol::UnAssigned
        }
    }

    /// The protocol number of a protocol; an unassigned one has none.
    #[verifier::when_used_as_spec(spec_to_u8)]
    pub fn to_u8(self) -> (r: Option<u8>)
        ensures
            r == self.spec_to_u8(),
    {
        match self {
            TransportProtocol::ICMP => Some(1),
            TransportProtocol::TCP => Some(6),
            TransportProtocol::UDP => Some(17),
            TransportProtocol::UnAssigned => None,
        }
    }

    /// The protocol's name.
    pub open spec fn spec_name(&self) -> Seq<char> {
        match *self {
            TransportProtocol::ICMP => "ICMP"@,
            TransportProtocol::TCP => "TCP"@,
            TransportProtocol::UDP => "UDP"@,
            TransportProtocol::UnAssigned => "UnAssigned"@,
        }
    }

    /// The protocol's name.
    pub fn to_string(&self) -> (s: String)
        ensures
            s@ == self.spec_name(),
    {
        match self {
            TransportProtocol::ICMP => String::from_str("ICMP"),
            TransportProtocol::TCP => String::from_str("TCP"),
            TransportProtocol::UDP => String::from_str("UDP"),
            TransportProtocol::UnAssigned => String::from_str("UnAssigned"),
        }
    }

    /// The protocol that a configuration names; only ICMP, TCP and UDP can
    /// be named.
    pub fn from_name(s: &str) -> (r: Option<TransportProtocol>)
        ensures
            r == (if s@ == "ICMP"@ {
                Some(TransportProtocol::ICMP)
            } else if s@ == "TCP"@ {
                Some(TransportProtocol::TCP)
            } else if s@ == "UDP"@ {
                Some(TransportProtocol::UDP)
            } else {
                None
            }),
    {
        let text = String::from_str(s);
        if text == String::from_str("ICMP") {
            Some(TransportProtocol::ICMP)
        } else if text == String::from_str("TCP") {
            Some(TransportProtocol::TCP)
        } else if text == String::from_str("UDP") {
            Some(TransportProtocol::UDP)
        } else {
            None
        }
    }

    /// A protocol that has a number is the protocol of that number.
    pub proof fn lemma_u8_roundtrip(p: TransportProtocol)
        requires
            p.spec_to_u8() is Some,
        ensures
            Self::spec_from_u8(p.spec_to_u8()->Some_0) == p,
    {
    }
}

impl TransportProtocolError {
    /// The transport failure that a failure of the internet layer becomes: a
    /// quiet drop stays a quiet drop; any other failure is wrapped.
    pub open spec fn spec_from_internet(e: InternetProtocolError) -> TransportProtocolError {
        match e {
            InternetProtocolError::Ignore => TransportProtocolError::Ignore,
            _ => TransportProtocolError::IPError { e },
        }
    }
}

impl Default for TransportProtocol {
    fn default() -> (r: Self)
        ensures
            r == TransportProtocol::TCP,
    {
        Self::TCP
    }
}

impl From<InternetProtocolError> for TransportProtocolError {
    /// A quiet drop stays a quiet drop; any other failure is wrapped.
    fn from(e: InternetProtocolError) -> (r: Self) {
        match e {
            InternetProtocolError::Ignore => Self::Ignore,
            _ => Self::IPError { e },
        }
    }
}

impl FromSpecImpl<InternetProtocolError> for TransportProtocolError {
    open spec fn obeys_from_spec() -> bool {
        true
    }

    open spec fn from_spec(e: InternetProtocolError) -> Self {
        TransportProtocolError::spec_from_internet(e)
    }
}

} // verus!
