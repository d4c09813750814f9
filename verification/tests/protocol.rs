use ear_api::error::EarError;
use ear_api::protocol::{crc16, EarPacket, HEADER_MAGIC};

#[test]
fn encode_and_parse_round_trip() {
    let payload = [0xAA, 0x55, 0x01];
    let encoded = EarPacket::encode(0xC007, 0x10, &payload);
    // Ensure the encoded packet still starts with the expected header
    assert_eq!(&encoded[..HEADER_MAGIC.len()], &HEADER_MAGIC);

    let mut buffer = encoded.clone();
    let parsed = EarPacket::try_parse(&mut buffer)
        .expect("parser should not error")
        .expect("packet should be parsed");

    assert_eq!(parsed.command, 0xC007);
    assert_eq!(parsed.operation_id, 0x10);
    assert_eq!(parsed.payload, payload);
    assert!(buffer.is_empty(), "buffer should be drained");
}

#[test]
fn try_parse_handles_fragmented_stream() {
    let packet_a = EarPacket::encode(0x1234, 1, &[0x01, 0x02]);
    let packet_b = EarPacket::encode(0xABCD, 2, &[0x03]);

    // Simulate bytes arriving in small chunks.
    let mut stream = Vec::new();
    stream.extend_from_slice(&packet_a[..5]);
    let mut buffer = stream.clone();
    assert!(EarPacket::try_parse(&mut buffer).unwrap().is_none());

    stream.extend_from_slice(&packet_a[5..]);
    stream.extend_from_slice(&packet_b);
    let mut rolling_buffer = stream.clone();

    let first = EarPacket::try_parse(&mut rolling_buffer)
        .unwrap()
        .expect("first packet should parse");
    assert_eq!(first.command, 0x1234);
    assert_eq!(first.payload, vec![0x01, 0x02]);

    let second = EarPacket::try_parse(&mut rolling_buffer)
        .unwrap()
        .expect("second packet should parse");
    assert_eq!(second.command, 0xABCD);
    assert_eq!(second.payload, vec![0x03]);
    assert!(rolling_buffer.is_empty());
}

#[test]
fn crc16_matches_known_value() {
    let bytes = [
        HEADER_MAGIC.as_slice(),
        &[0x34, 0x12, 0x02, 0x00, 0x01],
        &[0xAA, 0xBB],
    ]
    .concat();
    assert_eq!(crc16(&bytes), 0xFA6A);
}

#[test]
fn crc16_of_nothing_is_the_initial_register() {
    assert_eq!(crc16(&[]), 0xFFFF);
    // CRC-16/MODBUS check value.
    assert_eq!(crc16(b"123456789"), 0x4B37);
}

#[test]
fn encode_lays_out_the_frame() {
    let frame = EarPacket::encode(0xC007, 0x10, &[0xAA, 0x55, 0x01]);
    assert_eq!(frame.len(), 13);
    assert_eq!(&frame[..8], &[0x55, 0x60, 0x01, 0x07, 0xC0, 0x03, 0x00, 0x10]);
    assert_eq!(&frame[8..11], &[0xAA, 0x55, 0x01]);
    let crc = crc16(&frame[..11]);
    assert_eq!(frame[11], (crc & 0xFF) as u8);
    assert_eq!(frame[12], (crc >> 8) as u8);
}

#[test]
fn encode_keeps_the_length_modulo_256() {
    let payload = vec![7u8; 300];
    let frame = EarPacket::encode(1, 2, &payload);
    assert_eq!(frame.len(), 310);
    assert_eq!(frame[5], (300 % 256) as u8);
}

#[test]
fn short_buffer_waits_untouched() {
    let mut buffer = vec![0x00, 0x55, 0x60];
    assert!(EarPacket::try_parse(&mut buffer).unwrap().is_none());
    assert_eq!(buffer, vec![0x00, 0x55, 0x60]);
}

#[test]
fn noise_without_magic_is_dropped() {
    let mut buffer = vec![0x01, 0x02, 0x03, 0x04, 0x05, 0x06, 0x07, 0x08, 0x09];
    assert!(EarPacket::try_parse(&mut buffer).unwrap().is_none());
    assert!(buffer.is_empty());
}

#[test]
fn leading_noise_and_false_magic_are_skipped() {
    let frame = EarPacket::encode(0x4007, 3, &[0x09]);
    let mut buffer = vec![0x00, 0x55, 0x11];
    buffer.extend_from_slice(&frame);
    let packet = EarPacket::try_parse(&mut buffer).unwrap().expect("frame after noise");
    assert_eq!(packet.command, 0x4007);
    assert_eq!(packet.operation_id, 3);
    assert_eq!(packet.payload, vec![0x09]);
    assert!(buffer.is_empty());
}

#[test]
fn incomplete_frame_after_noise_keeps_from_magic() {
    let frame = EarPacket::encode(0x4007, 3, &[0x09, 0x08, 0x07]);
    let mut buffer = vec![0x00, 0x01];
    buffer.extend_from_slice(&frame[..9]);
    assert!(EarPacket::try_parse(&mut buffer).unwrap().is_none());
    assert_eq!(buffer, frame[..9].to_vec());
}

#[test]
fn corrupted_frame_is_rejected_and_removed() {
    let mut frame = EarPacket::encode(0xE001, 1, &[0x02, 0x64]);
    let last = frame.len() - 1;
    frame[last] ^= 0xFF;
    let next = EarPacket::encode(0x4007, 2, &[]);
    let mut buffer = frame.clone();
    buffer.extend_from_slice(&next);
    assert!(matches!(EarPacket::try_parse(&mut buffer), Err(EarError::CrcMismatch)));
    assert_eq!(buffer, next);
    let packet = EarPacket::try_parse(&mut buffer).unwrap().expect("intact frame");
    assert_eq!(packet.command, 0x4007);
    assert!(packet.payload.is_empty());
}

#[test]
fn every_strict_prefix_of_a_frame_waits() {
    let frame = EarPacket::encode(0xABCD, 9, &[1, 2, 3, 4]);
    for n in 0..frame.len() {
        let mut buffer = frame[..n].to_vec();
        assert!(EarPacket::try_parse(&mut buffer).unwrap().is_none());
        assert_eq!(buffer, frame[..n].to_vec());
    }
}
