//! The transport layer: ICMP and the receiving half of TCP.

pub mod icmp;
pub mod protocol;
pub mod tcp;

pub use protocol::{rx, TransportProtocol, TransportProtocolError};
