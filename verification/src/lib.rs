//! A userspace TCP/IP protocol stack above a raw link device.
//!
//! Every layer is a pair of receive and transmit functions plus a byte-exact
//! header codec. The functions compute on plain values: a received frame goes
//! in, the updated stack state and the frame to transmit in answer come out.
//! Reading from and writing to the device is left to the caller.

pub mod text;
pub mod byteorder_wrapper;
pub mod calculator;
pub mod checksum;
pub mod internet;
pub mod link;
pub mod network_device;
pub mod option;
pub mod protocol_stack;
pub mod transport;

pub use protocol_stack::{
    run, rx_datalink, rx_internet, rx_transport, step, Entropy, Items, Outbound, OutboundView,
    PeachPSError, Received, RxResult, Step,
};
