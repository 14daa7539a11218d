//! The state that the layers share and what crosses between them.

use crate::internet;
use crate::internet::arp::Resolution;
use crate::internet::ip::IPv4Addr;
use crate::internet::{InternetProtocol, InternetProtocolError};
use crate::link;
use crate::link::{LinkProtocol, LinkProtocolError, MacAddress};
use crate::network_device::NetworkDeviceError;
use crate::option::PeachPSOption;
use crate::transport;
use crate::transport::tcp::ProtocolControlBlock;
use crate::transport::{TransportProtocol, TransportProtocolError};
use std::collections::HashMap;
use vstd::prelude::*;
use vstd::std_specs::convert::FromSpecImpl;

verus! {

/// The configuration and the two tables that every layer works on.
#[derive(Debug, Clone)]
pub struct Items {
    pub opt: PeachPSOption,
    /// The hardware address learnt for each IPv4 address, keyed by the
    /// address as a number.
    pub arp_table: HashMap<u32, MacAddress>,
    /// The TCP connections, found by position.
    pub tcp_connection: Vec<ProtocolControlBlock>,
}

/// A failure of the stack, from whichever layer.
#[derive(Debug, Clone, Copy, PartialEq, Eq, Structural)]
pub enum PeachPSError {
    /// The device has nothing more to read.
    EOF,
    /// The data is not to be processed.
    ShouldNotProcess,
    /// The device failed.
    NetworkDeviceError { e: NetworkDeviceError },
    /// The link layer failed.
    LinkProtocolError { e: LinkProtocolError },
    /// The internet layer failed.
    InternetProtocolError { e: InternetProtocolError },
    /// The transport layer failed.
    TransportProtocolError { e: TransportProtocolError },
    /// The data is well formed and not for this stack: a quiet drop.
    Ignore,
}

/// A transmission that a receive pass asks of whoever owns the device.
#[derive(Debug, Clone, PartialEq, Eq)]
pub enum Outbound {
    /// Write this frame to the device.
    Frame { frame: Vec<u8> },
    /// The destination's hardware address is not known: write `request`, the
    /// ARP request for it, once; look the table up as `resolution` says; and
    /// frame `packet` for the address that turns up.
    Resolve { resolution: Resolution, request: Vec<u8>, packet: Vec<u8> },
}

/// An `Outbound` with its frames as byte sequences.
pub enum OutboundView {
    Frame { frame: Seq<u8> },
    Resolve { resolution: Resolution, request: Seq<u8>, packet: Seq<u8> },
}

impl View for Outbound {
    type V = OutboundView;

    open spec fn view(&self) -> OutboundView {
        match *self {
            Outbound::Frame { frame } => OutboundView::Frame { frame: frame@ },
            Outbound::Resolve { resolution, request, packet } => OutboundView::Resolve {
                resolution,
                request: request@,
                packet: packet@,
            },
        }
    }
}

/// The view of a transmission that may be there.
pub open spec fn spec_outbound_view(outbound: Option<Outbound>) -> Option<OutboundView> {
    match outbound {
        Some(outbound) => Some(outbound@),
        None => None,
    }
}

/// What the lower layers found out about the data that they hand up.
#[derive(Debug, Clone, Copy, PartialEq, Eq)]
pub struct RxResult {
    /// The hardware address of the frame's sender.
    pub src_mac_addr: MacAddress,
    /// The IPv4 address of the packet's sender.
    pub src_ip_addr: IPv4Addr,
    /// The protocol that the frame carries.
    pub ip_type: InternetProtocol,
    /// The protocol that the packet carries.
    pub tp_type: TransportProtocol,
    /// The length of the packet's payload in bytes.
    pub message_len: usize,
}

impl Default for RxResult {
    fn default() -> (r: Self)
        ensures
            r == (RxResult {
                src_mac_addr: MacAddress::spec_zero(),
                src_ip_addr: IPv4Addr::spec_any(),
                ip_type: InternetProtocol::IP,
                tp_type: TransportProtocol::TCP,
                message_len: 0,
            }),
    {
        Self {
            src_mac_addr: MacAddress::zero(),
            src_ip_addr: IPv4Addr::any(),
            ip_type: InternetProtocol::IP,
            tp_type: TransportProtocol::TCP,
            message_len: 0,
        }
    }
}

impl Items {
    /// The number of entries that the ARP table has room for at the start.
    pub const ARP_TABLE_CAPACITY: usize = 16;

    /// The hardware address that the table holds for `ip`, if any.
    pub open spec fn spec_lookup_arp_table(&self, ip: IPv4Addr) -> Option<MacAddress> {
        if self.arp_table@.contains_key(ip.0) {
            Some(self.arp_table@[ip.0])
        } else {
            None
        }
    }

    /// A stack with empty tables.
    pub fn new(opt: PeachPSOption) -> (items: Self)
        ensures
            items.opt == opt,
            items.arp_table@ == Map::<u32, MacAddress>::empty(),
            items.tcp_connection@ == Seq::<ProtocolControlBlock>::empty(),
            transport::tcp::protocol::spec_table_wf(items.tcp_connection@),
    {
        Self {
            opt,
            arp_table: HashMap::with_capacity(Self::ARP_TABLE_CAPACITY),
            tcp_connection: Vec::new(),
        }
    }

    /// The hardware address that the table holds for `ip`, if any.
    pub fn lookup_arp_table(&self, ip: &IPv4Addr) -> (r: Option<MacAddress>)
        ensures
            r == self.spec_lookup_arp_table(*ip),
    {
        broadcast use vstd::std_specs::hash::group_hash_axioms;

        match self.arp_table.get(&ip.0) {
            Some(mac_addr) => Some(*mac_addr),
            None => None,
        }
    }
}

/// What one received frame did, seen from outside the stack.
#[derive(Debug, PartialEq, Eq)]
pub struct Received {
    /// The transmission that the internet layer asks for, if any.
    pub internet_outbound: Option<Outbound>,
    /// The transmission that the transport layer asks for, if any.
    pub transport_outbound: Option<Outbound>,
    /// The data for the application, or why there is none.
    pub data: Result<Vec<u8>, PeachPSError>,
}

/// What one received frame does: the tables afterwards, the transmissions
/// asked for, and the data for the application or why there is none.
pub struct ReceivedView {
    pub cache: Map<u32, MacAddress>,
    pub table: Seq<ProtocolControlBlock>,
    pub internet_outbound: Option<OutboundView>,
    pub transport_outbound: Option<OutboundView>,
    pub data: Result<Seq<u8>, PeachPSError>,
}

/// What whoever owns the device does after one read.
#[derive(Debug, Clone, PartialEq, Eq)]
pub enum Step {
    /// The device is at its end: stop reading.
    Stop,
    /// Send what is asked for, report what is to be reported, read on.
    Continue {
        internet_outbound: Option<Outbound>,
        transport_outbound: Option<Outbound>,
        report: Option<PeachPSError>,
    },
}

/// A `Step` with its frames as byte sequences.
pub enum StepView {
    Stop,
    Continue {
        internet_outbound: Option<OutboundView>,
        transport_outbound: Option<OutboundView>,
        report: Option<PeachPSError>,
    },
}

impl View for Step {
    type V = StepView;

    open spec fn view(&self) -> StepView {
        match *self {
            Step::Stop => StepView::Stop,
            Step::Continue { internet_outbound, transport_outbound, report } => StepView::Continue {
                internet_outbound: spec_outbound_view(internet_outbound),
                transport_outbound: spec_outbound_view(transport_outbound),
                report,
            },
        }
    }
}

/// Two numbers that are drawn at random for each received frame.
#[derive(Debug, Clone, Copy, PartialEq, Eq, Structural)]
pub struct Entropy {
    /// The identification of the packet that carries an answer.
    pub id: u16,
    /// The initial send sequence number of a connection that is opened.
    pub iss: u32,
}

/// The frame within `buf`: the first `nbytes` bytes, as far as `buf` has them.
pub open spec fn spec_frame(buf: Seq<u8>, nbytes: usize) -> Seq<u8> {
    if nbytes < buf.len() {
        buf.take(nbytes as int)
    } else {
        buf
    }
}

/// The failure of the stack that a failure of the link layer becomes.
pub open spec fn spec_from_link(e: LinkProtocolError) -> PeachPSError {
    match e {
        LinkProtocolError::Ignore => PeachPSError::Ignore,
        _ => PeachPSError::LinkProtocolError { e },
    }
}

/// The failure of the stack that a failure of the internet layer becomes.
pub open spec fn spec_from_internet(e: InternetProtocolError) -> PeachPSError {
    match e {
        InternetProtocolError::Ignore => PeachPSError::Ignore,
        _ => PeachPSError::InternetProtocolError { e },
    }
}

/// The failure of the stack that a failure of the transport layer becomes.
pub open spec fn spec_from_transport(e: TransportProtocolError) -> PeachPSError {
    match e {
        TransportProtocolError::Ignore => PeachPSError::Ignore,
        _ => PeachPSError::TransportProtocolError { e },
    }
}

/// What the link layer makes of a read of `nbytes` bytes into `buf`. A read
/// of nothing is the end of the device.
pub open spec fn spec_rx_datalink(dev_addr: MacAddress, buf: Seq<u8>, nbytes: usize) -> Result<
    (RxResult, Seq<u8>),
    PeachPSError,
> {
    if nbytes == 0 {
        Err(PeachPSError::EOF)
    } else {
        match link::ethernet::protocol::spec_rx(dev_addr, spec_frame(buf, nbytes)) {
            Ok((header, rest)) => Ok((link::protocol::spec_rx_result(header), rest)),
            Err(e) => Err(spec_from_link(e)),
        }
    }
}

/// What a read of `nbytes` bytes into `buf` does when it is passed up
/// through all the layers. What the internet layer has done stays done when
/// the transport layer fails.
pub open spec fn spec_rx_transport(
    opt: PeachPSOption,
    cache: Map<u32, MacAddress>,
    table: Seq<ProtocolControlBlock>,
    buf: Seq<u8>,
    nbytes: usize,
    entropy: Entropy,
) -> ReceivedView {
    match spec_rx_datalink(opt.dev_addr, buf, nbytes) {
        Err(e) => ReceivedView {
            cache,
            table,
            internet_outbound: None,
            transport_outbound: None,
            data: Err(e),
        },
        Ok((link_result, packet)) => match internet::protocol::spec_rx(
            opt,
            cache,
            link_result,
            packet,
        ) {
            Err(e) => ReceivedView {
                cache,
                table,
                internet_outbound: None,
                transport_outbound: None,
                data: Err(spec_from_internet(e)),
            },
            Ok(internet) => match transport::protocol::spec_rx(
                opt,
                internet.cache,
                table,
                internet.result,
                internet.rest,
                entropy.iss,
                entropy.id,
            ) {
                Err(e) => ReceivedView {
                    cache: internet.cache,
                    table,
                    internet_outbound: internet.outbound,
                    transport_outbound: None,
                    data: Err(spec_from_transport(e)),
                },
                Ok(transport) => ReceivedView {
                    cache: internet.cache,
                    table: transport.table,
                    internet_outbound: internet.outbound,
                    transport_outbound: transport.outbound,
                    data: Ok(transport.data),
                },
            },
        },
    }
}

/// What to do after a read, given what the read did: stop at the end of the
/// device; else send what is asked for and read on. A failure other than a
/// quiet drop is reported when the stack is configured to.
pub open spec fn spec_step(
    debug: bool,
    internet_outbound: Option<OutboundView>,
    transport_outbound: Option<OutboundView>,
    data: Result<Seq<u8>, PeachPSError>,
) -> StepView {
    match data {
        Err(PeachPSError::EOF) => StepView::Stop,
        Err(PeachPSError::Ignore) => StepView::Continue {
            internet_outbound,
            transport_outbound,
            report: None,
        },
        Err(e) => StepView::Continue {
            internet_outbound,
            transport_outbound,
            report: if debug {
                Some(e)
            } else {
                None
            },
        },
        Ok(_) => StepView::Continue { internet_outbound, transport_outbound, report: None },
    }
}

/// Whether `step` and the tables `cache` and `table` are what a read of
/// `nbytes` bytes into `buf` leads to when `entropy` is drawn.
pub open spec fn spec_run_yields(
    opt: PeachPSOption,
    cache_before: Map<u32, MacAddress>,
    table_before: Seq<ProtocolControlBlock>,
    buf: Seq<u8>,
    nbytes: usize,
    entropy: Entropy,
    cache: Map<u32, MacAddress>,
    table: Seq<ProtocolControlBlock>,
    step: StepView,
) -> bool {
    let received = spec_rx_transport(opt, cache_before, table_before, buf, nbytes, entropy);
    &&& cache == received.cache
    &&& table == received.table
    &&& step == spec_step(
        opt.debug,
        received.internet_outbound,
        received.transport_outbound,
        received.data,
    )
}

/// `rand::random`, called once for a 16-bit and once for a 32-bit number.
/// Nothing is known of what it returns.
#[verifier::external_body]
fn draw_entropy() -> (entropy: Entropy) {
    Entropy { id: rand::random::<u16>(), iss: rand::random::<u32>() }
}

/// Passes a read of `nbytes` bytes into `buf` to the link layer. A read of
/// nothing is the end of the device: `EOF`.
pub fn rx_datalink(items: &Items, lp: LinkProtocol, buf: &[u8], nbytes: usize) -> (r: Result<
    (RxResult, Vec<u8>),
    PeachPSError,
>)
    ensures
        match spec_rx_datalink(items.opt.dev_addr, buf@, nbytes) {
            Ok((result, rest)) => r is Ok && r->Ok_0.0 == result && r->Ok_0.1@ == rest,
            Err(e) => r == Err::<(RxResult, Vec<u8>), PeachPSError>(e),
        },
{
    if nbytes == 0 {
        return Err(PeachPSError::EOF);
    }
    let frame_len = if nbytes < buf.len() {
        nbytes
    } else {
        buf.len()
    };
    let frame = vstd::slice::slice_subrange(buf, 0, frame_len);
    assert(frame@ =~= spec_frame(buf@, nbytes));

    match link::rx(items, lp, frame) {
        Ok((result, rest)) => Ok((result, rest)),
        Err(e) => Err(PeachPSError::from(e)),
    }
}

/// Passes a read of `nbytes` bytes into `buf` up through the link and the
/// internet layer.
pub fn rx_internet(items: &mut Items, lp: LinkProtocol, buf: &[u8], nbytes: usize) -> (r: Result<
    (RxResult, Vec<u8>, Option<Outbound>),
    PeachPSError,
>)
    ensures
        final(items).opt == old(items).opt,
        final(items).tcp_connection == old(items).tcp_connection,
        match spec_rx_datalink(old(items).opt.dev_addr, buf@, nbytes) {
            Err(e) => r == Err::<(RxResult, Vec<u8>, Option<Outbound>), PeachPSError>(e)
                && final(items).arp_table@ == old(items).arp_table@,
            Ok((link_result, packet)) => match internet::protocol::spec_rx(
                old(items).opt,
                old(items).arp_table@,
                link_result,
                packet,
            ) {
                Err(e) => r == Err::<(RxResult, Vec<u8>, Option<Outbound>), PeachPSError>(
                    spec_from_internet(e),
                ) && final(items).arp_table@ == old(items).arp_table@,
                Ok(outcome) => r is Ok && r->Ok_0.0 == outcome.result && r->Ok_0.1@
                    == outcome.rest && spec_outbound_view(r->Ok_0.2) == outcome.outbound
                    && final(items).arp_table@ == outcome.cache,
            },
        },
{
    let (link_ex_result, raw_ip_packet) = rx_datalink(items, lp, buf, nbytes)?;
    match internet::rx(items, link_ex_result, raw_ip_packet.as_slice()) {
        Ok((result, rest, outbound)) => Ok((result, rest, outbound)),
        Err(e) => Err(PeachPSError::from(e)),
    }
}

/// Passes a read of `nbytes` bytes into `buf` up through all the layers,
/// with `entropy` for what the answer needs at random.
pub fn rx_transport(
    items: &mut Items,
    lp: LinkProtocol,
    buf: &[u8],
    nbytes: usize,
    entropy: Entropy,
) -> (received: Received)
    ensures
        final(items).opt == old(items).opt,
        ({
            let expected = spec_rx_transport(
                old(items).opt,
                old(items).arp_table@,
                old(items).tcp_connection@,
                buf@,
                nbytes,
                entropy,
            );
            &&& final(items).arp_table@ == expected.cache
            &&& final(items).tcp_connection@ == expected.table
            &&& spec_outbound_view(received.internet_outbound) == expected.internet_outbound
            &&& spec_outbound_view(received.transport_outbound) == expected.transport_outbound
            &&& match expected.data {
                Ok(data) => received.data is Ok && received.data->Ok_0@ == data,
                Err(e) => received.data == Err::<Vec<u8>, PeachPSError>(e),
            }
        }),
{
    let (result, raw_segment, internet_outbound) = match rx_internet(items, lp, buf, nbytes) {
        Ok(passed) => passed,
        Err(e) => {
            return Received { internet_outbound: None, transport_outbound: None, data: Err(e) };
        },
    };
    match transport::rx(items, result, raw_segment.as_slice(), entropy.iss, entropy.id) {
        Ok((data, transport_outbound)) => Received {
            internet_outbound,
            transport_outbound,
            data: Ok(data),
        },
        Err(e) => Received {
            internet_outbound,
            transport_outbound: None,
            data: Err(PeachPSError::from(e)),
        },
    }
}

/// Decides what follows a read, given what the read did.
pub fn step(debug: bool, received: Received) -> (step: Step)
    ensures
        step@ == spec_step(
            debug,
            spec_outbound_view(received.internet_outbound),
            spec_outbound_view(received.transport_outbound),
            match received.data {
                Ok(data) => Ok(data@),
                Err(e) => Err(e),
            },
        ),
{
    let Received { internet_outbound, transport_outbound, data } = received;
    match data {
        Ok(_data) => Step::Continue { internet_outbound, transport_outbound, report: None },
        Err(e) => match e {
            PeachPSError::EOF => Step::Stop,
            PeachPSError::Ignore => Step::Continue {
                internet_outbound,
                transport_outbound,
                report: None,
            },
            _ => Step::Continue {
                internet_outbound,
                transport_outbound,
                report: if debug {
                    Some(e)
                } else {
                    None
                },
            },
        },
    }
}

/// Handles one read of `nbytes` bytes into `buf`: passes the frame up
/// through the layers and says what to send, what to report and whether to
/// read on.
///
/// The identification of an answering packet and the initial sequence number
/// of an opened connection are drawn at random; the tables and the step are
/// those that follow for the numbers drawn.
pub fn run(items: &mut Items, lp: LinkProtocol, buf: &[u8], nbytes: usize) -> (step: Step)
    ensures
        final(items).opt == old(items).opt,
        exists|entropy: Entropy|
            spec_run_yields(
                old(items).opt,
                old(items).arp_table@,
                old(items).tcp_connection@,
                buf@,
                nbytes,
                entropy,
                final(items).arp_table@,
                final(items).tcp_connection@,
                step@,
            ),
{
    let entropy = draw_entropy();
    let debug = items.opt.debug;
    let received = rx_transport(items, lp, buf, nbytes, entropy);
    let decided = self::step(debug, received);
    assert(spec_run_yields(
        old(items).opt,
        old(items).arp_table@,
        old(items).tcp_connection@,
        buf@,
        nbytes,
        entropy,
        items.arp_table@,
        items.tcp_connection@,
        decided@,
    ));
    decided
}

impl From<NetworkDeviceError> for PeachPSError {
    fn from(e: NetworkDeviceError) -> (r: Self) {
        Self::NetworkDeviceError { e }
    }
}

impl FromSpecImpl<NetworkDeviceError> for PeachPSError {
    open spec fn obeys_from_spec() -> bool {
        true
    }

    open spec fn from_spec(e: NetworkDeviceError) -> Self {
        PeachPSError::NetworkDeviceError { e }
    }
}

impl From<TransportProtocolError> for PeachPSError {
    /// A quiet drop stays a quiet drop; any other failure is wrapped.
    fn from(e: TransportProtocolError) -> (r: Self) {
        match e {
            TransportProtocolError::Ignore => PeachPSError::Ignore,
            _ => Self::TransportProtocolError { e },
        }
    }
}

impl FromSpecImpl<TransportProtocolError> for PeachPSError {
    open spec fn obeys_from_spec() -> bool {
        true
    }

    open spec fn from_spec(e: TransportProtocolError) -> Self {
        match e {
            TransportProtocolError::Ignore => PeachPSError::Ignore,
            _ => PeachPSError::TransportProtocolError { e },
        }
    }
}

impl From<InternetProtocolError> for PeachPSError {
    /// A quiet drop stays a quiet drop; any other failure is wrapped.
    fn from(e: InternetProtocolError) -> (r: Self) {
        match e {
            InternetProtocolError::Ignore => PeachPSError::Ignore,
            _ => Self::InternetProtocolError { e },
        }
    }
}

impl FromSpecImpl<InternetProtocolError> for PeachPSError {
    open spec fn obeys_from_spec() -> bool {
        true
    }

    open spec fn from_spec(e: InternetProtocolError) -> Self {
        match e {
            InternetProtocolError::Ignore => PeachPSError::Ignore,
            _ => PeachPSError::InternetProtocolError { e },
        }
    }
}

impl From<LinkProtocolError> for PeachPSError {
    /// A quiet drop stays a quiet drop; any other failure is wrapped.
    fn from(e: LinkProtocolError) -> (r: Self) {
        match e {
            LinkProtocolError::Ignore => PeachPSError::Ignore,
            _ => Self::LinkProtocolError { e },
        }
    }
}

impl FromSpecImpl<LinkProtocolError> for PeachPSError {
    open spec fn obeys_from_spec() -> bool {
        true
    }

    open spec fn from_spec(e: LinkProtocolError) -> Self {
        match e {
            LinkProtocolError::Ignore => PeachPSError::Ignore,
            _ => PeachPSError::LinkProtocolError { e },
        }
    }
}

} // verus!
