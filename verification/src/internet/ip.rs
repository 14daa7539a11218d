//! IPv4: addresses, the packet header, and packet handling.

pub mod protocol;
pub mod types;

pub use protocol::{rx, tx, validate_ip_packet, ProcessMode};
pub use types::{IPHeader, IPv4Addr};
