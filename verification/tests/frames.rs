use rc_link::crc::{checksum, Crc16};
use rc_link::sumd::{
    encode_frame, normalise, FrameError, Status, SumdBuffer, HIGH, LOW, NEUTRAL,
};

#[test]
fn crc_known_vector() {
    assert_eq!(checksum(b"123456789"), 0x31c3);
}

#[test]
fn crc_engine_is_deterministic_from_reset() {
    let data = [0xa8u8, 1, 2, 3, 250, 17];
    let mut engine = Crc16::new();
    for byte in data {
        engine.update(byte);
    }
    let first = engine.value();
    engine.reset();
    for byte in data {
        engine.update(byte);
    }
    assert_eq!(engine.value(), first);
    assert_eq!(checksum(&data), first);
}

#[test]
fn frame_crc_covers_payload_only() {
    let frame = encode_frame(Status::Live, &[0, 0, 0, 0]).unwrap();
    assert_eq!(frame.len(), 13);
    let crc = u16::from_be_bytes([frame[11], frame[12]]);
    assert_eq!(crc, checksum(&frame[..11]));
    assert_eq!(crc, 0xdfdb);
    // Had the CRC bytes been fed back into the register while they were
    // written, the residue over the whole frame would not be zero.
    assert_eq!(checksum(&frame), 0);
}

#[test]
fn frame_shape_across_channel_counts() {
    for n in [0usize, 1, 16, 32] {
        let values = vec![0u16; n];
        let frame = encode_frame(Status::Live, &values).unwrap();
        assert_eq!(frame.len(), 3 + 2 * n + 2);
        assert_eq!(frame[0], 0xa8);
        assert!(frame[1] == 0x01 || frame[1] == 0x81);
        assert_eq!(frame[2] as usize, n);
    }
}

#[test]
fn failsafe_status_byte() {
    let frame = encode_frame(Status::FailSafe, &[]).unwrap();
    assert_eq!(frame[1], 0x81);
}

#[test]
fn too_many_channels_is_rejected() {
    let values = [0u16; 33];
    let result = encode_frame(Status::Live, &values);
    assert_eq!(result.unwrap_err(), FrameError::FrameTooLarge);
}

#[test]
fn scaling_boundaries() {
    assert_eq!(normalise(0), LOW);
    assert!(normalise(65535) >= HIGH);
    assert_eq!(normalise(65535), 15353);
    assert_eq!(normalise(32000), NEUTRAL);
}

#[test]
fn scaled_values_reach_the_frame() {
    let frame = encode_frame(Status::Live, &[1000, 2000, 3000, 4000]).unwrap();
    assert_eq!(
        &frame[3..11],
        &[0x22, 0xc4, 0x23, 0x28, 0x23, 0x8c, 0x23, 0xf0]
    );
    let crc = u16::from_be_bytes([frame[11], frame[12]]);
    assert_eq!(crc, 0x9e9b);
}

#[test]
fn buffer_accumulates_frames_until_full() {
    let mut buffer = SumdBuffer::new();
    for _ in 0..5 {
        buffer.encode(Status::Live, &[0, 0, 0, 0]).unwrap();
    }
    assert_eq!(buffer.len(), 65);
    let result = buffer.encode(Status::Live, &[0, 0, 0, 0]);
    assert_eq!(result.unwrap_err(), FrameError::BufferFull);
    assert_eq!(buffer.len(), 65);
    let single = encode_frame(Status::Live, &[0, 0, 0, 0]).unwrap();
    assert_eq!(&buffer.as_slice()[..13], &single[..]);
}
