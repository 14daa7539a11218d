//! Receiving and sending Ethernet frames.

use crate::internet::InternetProtocol;
use crate::link::ethernet::FrameHeader;
use crate::link::{LinkProtocolError, MacAddress};
use crate::protocol_stack::Items;
use vstd::prelude::*;

verus! {

/// A frame is for this station when it is addressed to the device or to
/// everybody.
pub open spec fn spec_ethernet_frame_for_me(
    device_addr: MacAddress,
    frame_dst_addr: MacAddress,
) -> bool {
    device_addr == frame_dst_addr || frame_dst_addr == MacAddress::spec_broadcast()
}

/// What receiving `buf` on a device with address `device_addr` gives: the
/// header and the payload of a frame for this station, a quiet drop for a
/// frame for another station, a failure for what is no frame.
pub open spec fn spec_rx(device_addr: MacAddress, buf: Seq<u8>) -> Result<
    (FrameHeader, Seq<u8>),
    LinkProtocolError,
> {
    match FrameHeader::spec_from_bytes(buf) {
        None => Err(LinkProtocolError::CannotParseFrameHeader),
        Some(header) => if spec_ethernet_frame_for_me(device_addr, header.dst_addr) {
            Ok((header, buf.skip(FrameHeader::LENGTH as int)))
        } else {
            Err(LinkProtocolError::Ignore)
        },
    }
}

/// The frame that carries `payload` from the device with address
/// `device_addr` to `dst_addr`.
pub open spec fn spec_tx(
    device_addr: MacAddress,
    ip_type: InternetProtocol,
    dst_addr: MacAddress,
    payload: Seq<u8>,
) -> Seq<u8> {
    (FrameHeader { dst_addr, src_addr: device_addr, ty: ip_type }).spec_to_bytes() + payload
}

/// Takes a received frame apart and drops it quietly unless it is for this
/// station.
pub fn rx(items: &Items, buf: &[u8]) -> (r: Result<(FrameHeader, Vec<u8>), LinkProtocolError>)
    ensures
        match spec_rx(items.opt.dev_addr, buf@) {
            Ok((header, rest)) => r is Ok && r->Ok_0.0 == header && r->Ok_0.1@ == rest,
            Err(e) => r == Err::<(FrameHeader, Vec<u8>), LinkProtocolError>(e),
        },
{
    let (frame_hdr, rest) = FrameHeader::new_from_bytes(
        buf,
        LinkProtocolError::CannotParseFrameHeader,
    )?;

    if !ethernet_frame_for_me(items.opt.dev_addr, frame_hdr.dst_addr) {
        return Err(LinkProtocolError::Ignore);
    }
    Ok((frame_hdr, rest))
}

/// Builds the frame that carries `payload` from this station to `dst_addr`.
/// This never fails.
pub fn tx(items: &Items, ip_type: InternetProtocol, dst_addr: MacAddress, payload: Vec<u8>) -> (r:
    Result<Vec<u8>, LinkProtocolError>)
    ensures
        r is Ok,
        r->Ok_0@ == spec_tx(items.opt.dev_addr, ip_type, dst_addr, payload@),
{
    let mut payload = payload;
    let frame_hdr = FrameHeader { dst_addr, src_addr: items.opt.dev_addr, ty: ip_type };

    let mut ethernet_frame = frame_hdr.to_bytes(LinkProtocolError::CannotConstructFrame)?;
    ethernet_frame.append(&mut payload);
    Ok(ethernet_frame)
}

/// Whether a frame addressed to `frame_dst_addr` is for the station with
/// address `device_addr`.
#[verifier::when_used_as_spec(spec_ethernet_frame_for_me)]
pub fn ethernet_frame_for_me(device_addr: MacAddress, frame_dst_addr: MacAddress) -> (b: bool)
    ensures
        b == spec_ethernet_frame_for_me(device_addr, frame_dst_addr),
{
    device_addr == frame_dst_addr || frame_dst_addr == MacAddress::broadcast()
}

} // verus!
