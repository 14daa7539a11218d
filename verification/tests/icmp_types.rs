use peachps::transport::icmp::{Message, MessageData, MessageType};
use peachps::transport::TransportProtocolError;

#[test]
fn parse_icmp_message_test() {
    let raw_message = [0x00, 0x00, 0x55, 0x49, 0x00, 0x01, 0x00, 0x05];
    let result =
        Message::new_from_bytes(&raw_message, TransportProtocolError::CannotParseICMPMessage);
    assert!(result.is_ok());
    let msg = result.unwrap();
    assert_eq!(MessageType::EchoReply, msg.ty);
    assert_eq!(0, msg.code);
    assert_eq!(0x5549, msg.checksum);
    assert_eq!(
        MessageData::Echo {
            identifier: 1,
            sequence_number: 5,
            raw_data: [0; 32],
        },
        msg.data
    );
}
