//! ICMP: the message and the echo responder.

pub mod protocol;
pub mod types;

pub use protocol::{rx, tx};
pub use types::{Message, MessageData, MessageType};
