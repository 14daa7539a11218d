//! ARP: the packet, the resolver and its cache.

pub mod protocol;
pub mod types;

pub use protocol::{
    resolve_mac_address, resolve_poll, rx, tx_request, ResolveStep, Resolution,
    RESOLVE_INTERVAL_SECS, RESOLVE_POLLS,
};
pub use types::{ARPHeader, Operation};
