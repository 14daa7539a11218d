//! The internet protocols the stack tells apart, and how the layer fails.

use crate::internet::ip::IPv4Addr;
use crate::internet::{arp, ip};
use crate::link::{LinkProtocolError, MacAddress};
use crate::option::PeachPSOption;
use crate::protocol_stack::{spec_outbound_view, Items, Outbound, OutboundView, RxResult};
use vstd::prelude::*;
use vstd::std_specs::convert::FromSpecImpl;

verus! {

/// A protocol carried in a frame, named by the frame's ethertype.
#[derive(Debug, Clone, Copy, PartialEq, Eq, Structural, PartialOrd, Ord, Hash)]
pub enum InternetProtocol {
    IP,
    ARP,
    IPv6,
}

/// A failure of the internet layer.
#[derive(Debug, Clone, Copy, PartialEq, Eq, Structural)]
pub enum InternetProtocolError {
    /// The version field of the packet is not 4.
    NotIPv4Packet,
    /// Header length or total length exceed what was received.
    InvalidPacketLength,
    /// The header checksum does not verify.
    InvalidChecksum,
    /// The packet's time to live is zero.
    PacketWasDead,
    /// The bytes are no packet header.
    CannotParsePacketHeader,
    /// The packet is well formed and outside the configured filter.
    Ignore,
    /// The packet could not be built.
    CannotConstructPacket,
    /// The link layer failed.
    LinkError { e: LinkProtocolError },
    /// The header carries options.
    UnsupportedHeaderOption,
    /// Nobody answered for this address.
    CannotResolveMACAddressFrom { unknown_ip: IPv4Addr },
}

/// What the internet layer makes of a frame's payload.
pub struct InternetOutcome {
    /// The ARP table afterwards.
    pub cache: Map<u32, MacAddress>,
    /// What the layers above are told.
    pub result: RxResult,
    /// The bytes behind the internet header.
    pub rest: Seq<u8>,
    /// The transmission that answers, if any.
    pub outbound: Option<OutboundView>,
}

/// What receiving the payload `buf` of a frame gives. A payload of a
/// protocol outside the configured filter is dropped quietly, and so is
/// IPv6. IPv4 and ARP are handled as their layers say; the answer to an ARP
/// request is a frame to write.
pub open spec fn spec_rx(
    opt: PeachPSOption,
    cache: Map<u32, MacAddress>,
    rx_result: RxResult,
    buf: Seq<u8>,
) -> Result<InternetOutcome, InternetProtocolError> {
    if !opt.spec_allows_internet(rx_result.ip_type) {
        Err(InternetProtocolError::Ignore)
    } else {
        match rx_result.ip_type {
            InternetProtocol::IP => match ip::protocol::spec_rx(
                opt.ip_addr,
                opt.network_mask,
                rx_result,
                buf,
            ) {
                Ok((result, rest)) => Ok(InternetOutcome { cache, result, rest, outbound: None }),
                Err(e) => Err(e),
            },
            InternetProtocol::ARP => match arp::protocol::spec_rx(
                opt.dev_addr,
                opt.ip_addr,
                cache,
                rx_result,
                buf,
            ) {
                Ok(outcome) => Ok(
                    InternetOutcome {
                        cache: outcome.cache,
                        result: outcome.result,
                        rest: outcome.rest,
                        outbound: match outcome.reply {
                            Some(frame) => Some(OutboundView::Frame { frame }),
                            None => None,
                        },
                    },
                ),
                Err(e) => Err(e),
            },
            InternetProtocol::IPv6 => Err(InternetProtocolError::Ignore),
        }
    }
}

/// Receives the payload of a frame: drops what the configured filter does
/// not let through, and hands IPv4 and ARP to their layers.
///
/// The result is what the layers above are told, the bytes behind the
/// internet header, and the transmission of the answer, if there is one. On
/// failure the tables stay as they are.
pub fn rx(items: &mut Items, rx_result: RxResult, buf: &[u8]) -> (r: Result<
    (RxResult, Vec<u8>, Option<Outbound>),
    InternetProtocolError,
>)
    ensures
        final(items).opt == old(items).opt,
        final(items).tcp_connection == old(items).tcp_connection,
        match spec_rx(old(items).opt, old(items).arp_table@, rx_result, buf@) {
            Ok(outcome) => r is Ok && r->Ok_0.0 == outcome.result && r->Ok_0.1@ == outcome.rest
                && spec_outbound_view(r->Ok_0.2) == outcome.outbound && final(items).arp_table@
                == outcome.cache,
            Err(e) => r == Err::<(RxResult, Vec<u8>, Option<Outbound>), InternetProtocolError>(e)
                && final(items).arp_table@ == old(items).arp_table@,
        },
{
    if !items.opt.allows_internet(rx_result.ip_type) {
        return Err(InternetProtocolError::Ignore);
    }
    match rx_result.ip_type {
        InternetProtocol::IP => {
            let (result, rest) = ip::rx(items, rx_result, buf)?;
            Ok((result, rest, None))
        },
        InternetProtocol::ARP => {
            let (result, rest, reply) = arp::rx(items, rx_result, buf)?;
            let outbound = match reply {
                Some(frame) => Some(Outbound::Frame { frame }),
                None => None,
            };
            Ok((result, rest, outbound))
        },
        InternetProtocol::IPv6 => Err(InternetProtocolError::Ignore),
    }
}

impl InternetProtocol {
    /// The protocol of an ethertype, if the stack knows the ethertype.
    pub open spec fn spec_from_u16(v: u16) -> Option<InternetProtocol> {
        if v == 0x0800 {
            Some(InternetProtocol::IP)
        } else if v == 0x0806 {
            Some(InternetProtocol::ARP)
        } else if v == 0x86dd {
            Some(InternetProtocol::IPv6)
        } else {
            None
        }
    }

    /// The ethertype of a protocol.
    pub open spec fn spec_to_u16(self) -> u16 {
        match self {
            InternetProtocol::IP => 0x0800,
            InternetProtocol::ARP => 0x0806,
            InternetProtocol::IPv6 => 0x86dd,
        }
    }

    /// The protocol of an ethertype, if the stack knows the ethertype.
    #[verifier::when_used_as_spec(spec_from_u16)]
    pub fn from_u16(v: u16) -> (r: Option<InternetProtocol>)
        ensures
            r == Self::spec_from_u16(v),
    {
        match v {
            0x0800 => Some(InternetProtocol::IP),
            0x0806 => Some(InternetProtocol::ARP),
            0x86dd => Some(InternetProtocol::IPv6),
            _ => None,
        }
    }

    /// The ethertype of a protocol.
    #[verifier::when_used_as_spec(spec_to_u16)]
    pub fn to_u16(self) -> (v: u16)
        ensures
            v == self.spec_to_u16(),
    {
        match self {
            InternetProtocol::IP => 0x0800,
            InternetProtocol::ARP => 0x0806,
            InternetProtocol::IPv6 => 0x86dd,
        }
    }

    /// The protocol's name.
    pub open spec fn spec_name(&self) -> Seq<char> {
        match *self {
            InternetProtocol::IP => "IP"@,
            InternetProtocol::ARP => "ARP"@,
            InternetProtocol::IPv6 => "IPv6"@,
        }
    }

    /// The protocol's name.
    pub fn to_string(&self) -> (s: String)
        ensures
            s@ == self.spec_name(),
    {
        match self {
            InternetProtocol::IP => String::from_str("IP"),
            InternetProtocol::ARP => String::from_str("ARP"),
            InternetProtocol::IPv6 => String::from_str("IPv6"),
        }
    }

    /// The protocol of a name as `to_string` gives it; no other text names one.
    pub fn from_name(s: &str) -> (r: Option<InternetProtocol>)
        ensures
            r == (if s@ == "IP"@ {
                Some(InternetProtocol::IP)
            } else if s@ == "ARP"@ {
                Some(InternetProtocol::ARP)
            } else if s@ == "IPv6"@ {
                Some(InternetProtocol::IPv6)
            } else {
                None
            }),
    {
        let text = String::from_str(s);
        if text == String::from_str("IP") {
            Some(InternetProtocol::IP)
        } else if text == String::from_str("ARP") {
            Some(InternetProtocol::ARP)
        } else if text == String::from_str("IPv6") {
            Some(InternetProtocol::IPv6)
        } else {
            None
        }
    }

    /// Every protocol is the protocol of its own ethertype.
    pub proof fn lemma_u16_roundtrip(p: InternetProtocol)
        ensures
            Self::spec_from_u16(p.spec_to_u16()) == Some(p),
    {
    }
}

impl Default for InternetProtocol {
    fn default() -> (r: Self)
        ensures
            r == InternetProtocol::IP,
    {
        Self::IP
    }
}

impl From<LinkProtocolError> for InternetProtocolError {
    /// A quiet drop stays a quiet drop; any other link failure is wrapped.
    fn from(e: LinkProtocolError) -> (r: Self) {
        match e {
            LinkProtocolError::Ignore => Self::Ignore,
            _ => Self::LinkError { e },
        }
    }
}

impl FromSpecImpl<LinkProtocolError> for InternetProtocolError {
    open spec fn obeys_from_spec() -> bool {
        true
    }

    open spec fn from_spec(e: LinkProtocolError) -> Self {
        match e {
            LinkProtocolError::Ignore => InternetProtocolError::Ignore,
            _ => InternetProtocolError::LinkError { e },
        }
    }
}

} // verus!
