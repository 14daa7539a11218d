//! The internet layer: IPv4 and ARP.

pub mod arp;
pub mod ip;
pub mod protocol;

pub use protocol::{rx, InternetProtocol, InternetProtocolError};
