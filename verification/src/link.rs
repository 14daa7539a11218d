//! The link layer: Ethernet framing and hardware addresses.

pub mod ethernet;
pub mod mac_address;
pub mod protocol;

pub use mac_address::{MacAddress, RawMacAddress};
pub use protocol::{rx, LinkProtocol, LinkProtocolError, MTU};
