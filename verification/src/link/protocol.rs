//! The link protocols the stack speaks, and how the link layer fails.

use crate::link::ethernet;
use crate::link::ethernet::FrameHeader;
use crate::network_device::NetworkDeviceError;
use crate::protocol_stack::{Items, RxResult};
use vstd::prelude::*;
use vstd::std_specs::convert::FromSpecImpl;

verus! {

/// The largest payload of one frame, in bytes.
pub const MTU: usize = 1500;

/// A link-layer protocol.
#[derive(Debug, Clone, Copy, PartialEq, Eq, Structural, PartialOrd, Ord)]
pub enum LinkProtocol {
    Ethernet,
}

/// A failure of the link layer.
#[derive(Debug, Clone, Copy, PartialEq, Eq, Structural)]
pub enum LinkProtocolError {
    /// The bytes are no frame header.
    CannotParseFrameHeader,
    /// The frame could not be built.
    CannotConstructFrame,
    /// The frame is well formed and not meant for this host.
    Ignore,
    /// The device failed.
    NetworkDeviceError { e: NetworkDeviceError },
}

/// What the link layer hands up for a frame: who sent it and which protocol
/// it carries.
pub open spec fn spec_rx_result(header: FrameHeader) -> RxResult {
    RxResult {
        src_mac_addr: header.src_addr,
        src_ip_addr: crate::internet::ip::IPv4Addr::spec_any(),
        ip_type: header.ty,
        tp_type: crate::transport::TransportProtocol::TCP,
        message_len: 0,
    }
}

/// Receives a frame of link protocol `lp`: the frame's payload, with the
/// sender's hardware address and the carried protocol noted for the layers
/// above. A frame for another station is dropped quietly.
pub fn rx(items: &Items, lp: LinkProtocol, buf: &[u8]) -> (r: Result<
    (RxResult, Vec<u8>),
    LinkProtocolError,
>)
    ensures
        match ethernet::protocol::spec_rx(items.opt.dev_addr, buf@) {
            Ok((header, rest)) => r is Ok && r->Ok_0.0 == spec_rx_result(header) && r->Ok_0.1@
                == rest,
            Err(e) => r == Err::<(RxResult, Vec<u8>), LinkProtocolError>(e),
        },
{
    match lp {
        LinkProtocol::Ethernet => {
            let (frame_header, rest) = ethernet::rx(items, buf)?;

            let mut result = RxResult::default();
            result.src_mac_addr = frame_header.src_addr;
            result.ip_type = frame_header.ty;

            Ok((result, rest))
        },
    }
}

impl LinkProtocol {
    /// The protocol's name.
    pub open spec fn spec_name(&self) -> Seq<char> {
        "Ethernet"@
    }

    /// The protocol's name.
    pub fn to_string(&self) -> (s: String)
        ensures
            s@ == self.spec_name(),
    {
        match self {
            LinkProtocol::Ethernet => String::from_str("Ethernet"),
        }
    }
}

impl Default for LinkProtocol {
    fn default() -> (r: Self)
        ensures
            r == LinkProtocol::Ethernet,
    {
        LinkProtocol::Ethernet
    }
}

impl From<NetworkDeviceError> for LinkProtocolError {
    fn from(e: NetworkDeviceError) -> (r: Self) {
        Self::NetworkDeviceError { e }
    }
}

impl FromSpecImpl<NetworkDeviceError> for LinkProtocolError {
    open spec fn obeys_from_spec() -> bool {
        true
    }

    open spec fn from_spec(e: NetworkDeviceError) -> Self {
        LinkProtocolError::NetworkDeviceError { e }
    }
}

} // verus!
