use peachps::internet::arp::Operation;
use peachps::internet::{InternetProtocol, InternetProtocolError};
use peachps::link::{LinkProtocol, LinkProtocolError};
use peachps::network_device::NetworkDeviceError;
use peachps::transport::icmp::MessageType;
use peachps::transport::{TransportProtocol, TransportProtocolError};
use peachps::PeachPSError;

#[test]
fn ethertypes() {
    assert_eq!(Some(InternetProtocol::IP), InternetProtocol::from_u16(0x0800));
    assert_eq!(Some(InternetProtocol::ARP), InternetProtocol::from_u16(0x0806));
    assert_eq!(Some(InternetProtocol::IPv6), InternetProtocol::from_u16(0x86dd));
    assert_eq!(None, InternetProtocol::from_u16(0x0801));
    assert_eq!(0x0800, InternetProtocol::IP.to_u16());
    assert_eq!(0x0806, InternetProtocol::ARP.to_u16());
    assert_eq!(0x86dd, InternetProtocol::IPv6.to_u16());
}

#[test]
fn protocol_numbers() {
    assert_eq!(TransportProtocol::ICMP, TransportProtocol::from_u8(1));
    assert_eq!(TransportProtocol::TCP, TransportProtocol::from_u8(6));
    assert_eq!(TransportProtocol::UDP, TransportProtocol::from_u8(17));
    for number in [0u8, 2, 5, 7, 16, 18, 20, 21, 63, 64, 89, 255] {
        assert_eq!(TransportProtocol::UnAssigned, TransportProtocol::from_u8(number));
    }
    assert_eq!(Some(1), TransportProtocol::ICMP.to_u8());
    assert_eq!(Some(6), TransportProtocol::TCP.to_u8());
    assert_eq!(Some(17), TransportProtocol::UDP.to_u8());
    assert_eq!(None, TransportProtocol::UnAssigned.to_u8());
}

#[test]
fn arp_operations() {
    assert_eq!(Some(Operation::Request), Operation::from_u16(1));
    assert_eq!(Some(Operation::Reply), Operation::from_u16(2));
    assert_eq!(None, Operation::from_u16(0));
    assert_eq!(None, Operation::from_u16(3));
    assert_eq!(1, Operation::Request.to_u16());
    assert_eq!(2, Operation::Reply.to_u16());
}

#[test]
fn message_types() {
    assert_eq!(Some(MessageType::EchoReply), MessageType::from_u8(0));
    assert_eq!(Some(MessageType::DestinationUnreachable), MessageType::from_u8(3));
    assert_eq!(Some(MessageType::Redirect), MessageType::from_u8(5));
    assert_eq!(Some(MessageType::EchoRequest), MessageType::from_u8(8));
    assert_eq!(Some(MessageType::TimeExceeded), MessageType::from_u8(11));
    assert_eq!(None, MessageType::from_u8(1));
    assert_eq!(0, MessageType::EchoReply.to_u8());
    assert_eq!(3, MessageType::DestinationUnreachable.to_u8());
    assert_eq!(5, MessageType::Redirect.to_u8());
    assert_eq!(8, MessageType::EchoRequest.to_u8());
    assert_eq!(11, MessageType::TimeExceeded.to_u8());
    assert!(MessageType::EchoRequest.is_echo());
    assert!(!MessageType::Redirect.is_echo());
}

#[test]
fn protocol_names() {
    assert_eq!("Ethernet", LinkProtocol::Ethernet.to_string());
    assert_eq!("IP", InternetProtocol::IP.to_string());
    assert_eq!("ARP", InternetProtocol::ARP.to_string());
    assert_eq!("IPv6", InternetProtocol::IPv6.to_string());
    assert_eq!("ICMP", TransportProtocol::ICMP.to_string());
    assert_eq!("TCP", TransportProtocol::TCP.to_string());
    assert_eq!("UDP", TransportProtocol::UDP.to_string());
    assert_eq!("UnAssigned", TransportProtocol::UnAssigned.to_string());
    assert_eq!("ARP Request", Operation::Request.to_string());
    assert_eq!("ARP Reply", Operation::Reply.to_string());
    assert_eq!("Echo Request", MessageType::EchoRequest.to_string());
    assert_eq!("Echo Reply", MessageType::EchoReply.to_string());
    assert_eq!("Time Exceeded", MessageType::TimeExceeded.to_string());
}

#[test]
fn protocols_from_names() {
    assert_eq!(Some(InternetProtocol::IP), InternetProtocol::from_name("IP"));
    assert_eq!(Some(InternetProtocol::ARP), InternetProtocol::from_name("ARP"));
    assert_eq!(Some(InternetProtocol::IPv6), InternetProtocol::from_name("IPv6"));
    assert_eq!(None, InternetProtocol::from_name("ip"));
    assert_eq!(Some(TransportProtocol::ICMP), TransportProtocol::from_name("ICMP"));
    assert_eq!(Some(TransportProtocol::TCP), TransportProtocol::from_name("TCP"));
    assert_eq!(Some(TransportProtocol::UDP), TransportProtocol::from_name("UDP"));
    assert_eq!(None, TransportProtocol::from_name("UnAssigned"));
}

#[test]
fn defaults() {
    assert_eq!(LinkProtocol::Ethernet, LinkProtocol::default());
    assert_eq!(InternetProtocol::IP, InternetProtocol::default());
    assert_eq!(TransportProtocol::TCP, TransportProtocol::default());
}

#[test]
fn quiet_drops_stay_quiet_on_the_way_up() {
    assert_eq!(
        InternetProtocolError::Ignore,
        InternetProtocolError::from(LinkProtocolError::Ignore)
    );
    assert_eq!(
        InternetProtocolError::LinkError { e: LinkProtocolError::CannotConstructFrame },
        InternetProtocolError::from(LinkProtocolError::CannotConstructFrame)
    );
    assert_eq!(
        TransportProtocolError::Ignore,
        TransportProtocolError::from(InternetProtocolError::Ignore)
    );
    assert_eq!(
        TransportProtocolError::IPError { e: InternetProtocolError::PacketWasDead },
        TransportProtocolError::from(InternetProtocolError::PacketWasDead)
    );
    assert_eq!(PeachPSError::Ignore, PeachPSError::from(LinkProtocolError::Ignore));
    assert_eq!(PeachPSError::Ignore, PeachPSError::from(InternetProtocolError::Ignore));
    assert_eq!(PeachPSError::Ignore, PeachPSError::from(TransportProtocolError::Ignore));
    assert_eq!(
        PeachPSError::LinkProtocolError { e: LinkProtocolError::CannotParseFrameHeader },
        PeachPSError::from(LinkProtocolError::CannotParseFrameHeader)
    );
    assert_eq!(
        PeachPSError::InternetProtocolError { e: InternetProtocolError::InvalidChecksum },
        PeachPSError::from(InternetProtocolError::InvalidChecksum)
    );
    assert_eq!(
        PeachPSError::TransportProtocolError { e: TransportProtocolError::InvalidChecksum },
        PeachPSError::from(TransportProtocolError::InvalidChecksum)
    );
    assert_eq!(
        PeachPSError::NetworkDeviceError { e: NetworkDeviceError::Timeout },
        PeachPSError::from(NetworkDeviceError::Timeout)
    );
    assert_eq!(
        LinkProtocolError::NetworkDeviceError { e: NetworkDeviceError::FailedToWriteTo { fd: 3 } },
        LinkProtocolError::from(NetworkDeviceError::FailedToWriteTo { fd: 3 })
    );
}

#[test]
fn devices_know_their_hardware_address() {
    let socket = peachps::network_device::Socket::from_raw(3, [1, 2, 3, 4, 5, 6]);
    assert_eq!(3, socket.fd);
    assert_eq!(peachps::link::MacAddress([1, 2, 3, 4, 5, 6]), socket.device_addr());
    let tap = peachps::network_device::TapDevice::from_raw(4, [6, 5, 4, 3, 2, 1]);
    assert_eq!(4, tap.fd);
    assert_eq!(peachps::link::MacAddress([6, 5, 4, 3, 2, 1]), tap.device_addr());
}
