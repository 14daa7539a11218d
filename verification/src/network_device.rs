//! What the stack knows of the device underneath it: the ways it can fail.

use crate::link::{MacAddress, RawMacAddress};
use vstd::prelude::*;

verus! {

/// The handle by which the operating system names an open device.
pub type FileDescriptor = i32;

/// A failure of the raw device.
#[derive(Debug, Clone, Copy, PartialEq, Eq, Structural)]
pub enum NetworkDeviceError {
    /// The device path holds a byte that a path cannot hold.
    MalformedDeviceName,
    /// The interface name holds a byte that a name cannot hold.
    MalformedInterfaceName,
    /// The device could not be opened or bound.
    FailedToSetupNetworkDevice,
    /// Reading from the device failed.
    FailedToReadFrom { fd: FileDescriptor },
    /// Writing to the device failed or was short.
    FailedToWriteTo { fd: FileDescriptor },
    /// Nothing arrived within the poll interval.
    Timeout,
}

/// An open packet socket: its handle and the hardware address of the
/// interface that it is bound to.
#[derive(Debug, Clone, Copy, PartialEq, Eq)]
pub struct Socket {
    pub fd: FileDescriptor,
    pub mac_addr: MacAddress,
}

/// An open TAP device: its handle and its hardware address.
#[derive(Debug, Clone, Copy, PartialEq, Eq)]
pub struct TapDevice {
    pub fd: FileDescriptor,
    pub mac_addr: MacAddress,
}

impl Socket {
    /// The socket with handle `fd` on the interface with the octets `addr`
    /// as hardware address.
    pub fn from_raw(fd: FileDescriptor, addr: RawMacAddress) -> (socket: Self)
        ensures
            socket == (Socket { fd, mac_addr: MacAddress(addr) }),
    {
        Self { fd, mac_addr: MacAddress(addr) }
    }

    /// The hardware address that frames for this device are addressed to.
    pub fn device_addr(&self) -> (addr: MacAddress)
        ensures
            addr == self.mac_addr,
    {
        self.mac_addr
    }
}

impl TapDevice {
    /// The TAP device with handle `fd` and the octets `mac_addr` as
    /// hardware address.
    pub fn from_raw(fd: FileDescriptor, mac_addr: RawMacAddress) -> (device: Self)
        ensures
            device == (TapDevice { fd, mac_addr: MacAddress(mac_addr) }),
    {
        Self { fd, mac_addr: MacAddress(mac_addr) }
    }

    /// The hardware address that frames for this device are addressed to.
    pub fn device_addr(&self) -> (addr: MacAddress)
        ensures
            addr == self.mac_addr,
    {
        self.mac_addr
    }
}

} // verus!
