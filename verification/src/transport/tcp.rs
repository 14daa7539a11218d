//! TCP: the segment header, the connection table and the passive open.

pub mod control_flag;
pub mod protocol;
pub mod types;

pub use protocol::{rx, TxPreparation};
pub use types::{
    ConnState, Connection, EndPoint, ProtocolControlBlock, PseudoHeader, ReceiveInfo, SegmentHeader,
    SendInfo,
};
