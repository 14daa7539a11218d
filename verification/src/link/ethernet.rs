//! Ethernet II framing.

pub mod protocol;
pub mod types;

pub use protocol::{ethernet_frame_for_me, rx, tx};
pub use types::FrameHeader;
