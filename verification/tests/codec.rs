use rc_link::protocol::{DecodeError, Transmitter, TransmitterMessage, ENCODED_LEN};

#[test]
fn fits() {
    let message = Transmitter {
        correlation_id: 0,
        body: TransmitterMessage::ChannelValues([0; 4]),
    };
    let bytes = message.encode().unwrap();
    assert!(bytes.len() <= 32);
}

#[test]
fn round_trip() {
    let sent = Transmitter {
        correlation_id: 0xdead_beef,
        body: TransmitterMessage::ChannelValues([1000, 2000, 3000, 65535]),
    };
    let bytes = sent.encode().unwrap();
    let decoded = Transmitter::decode(&bytes).unwrap();
    assert_eq!(decoded, sent);
}

#[test]
fn encoded_length_is_fixed() {
    let message = Transmitter {
        correlation_id: u32::MAX,
        body: TransmitterMessage::ChannelValues([u16::MAX; 4]),
    };
    assert_eq!(message.encode().unwrap().len(), ENCODED_LEN);
}

#[test]
fn wire_layout_is_little_endian() {
    let message = Transmitter {
        correlation_id: 0x0403_0201,
        body: TransmitterMessage::ChannelValues([0x1122, 0x3344, 0x5566, 0x7788]),
    };
    let bytes = message.encode().unwrap();
    assert_eq!(
        bytes,
        vec![1, 2, 3, 4, 0, 0x22, 0x11, 0x44, 0x33, 0x66, 0x55, 0x88, 0x77]
    );
}

#[test]
fn truncated_payload_is_rejected() {
    let result = Transmitter::decode(&[0u8; 12]);
    assert_eq!(result.unwrap_err(), DecodeError::WrongLength);
}

#[test]
fn oversized_payload_is_rejected() {
    let result = Transmitter::decode(&[0u8; 14]);
    assert_eq!(result.unwrap_err(), DecodeError::WrongLength);
}

#[test]
fn unknown_discriminant_is_rejected() {
    let message = Transmitter {
        correlation_id: 7,
        body: TransmitterMessage::ChannelValues([1, 2, 3, 4]),
    };
    let mut bytes = message.encode().unwrap();
    bytes[4] = 9;
    let result = Transmitter::decode(&bytes);
    assert_eq!(result.unwrap_err(), DecodeError::UnknownDiscriminant);
}
