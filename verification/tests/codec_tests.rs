use xmodem_rs::codec::{
    checksum, crc, decode_and_validate, encode, next_seq, DecodeError, Mode, ACK, CAN, EOT, NAK,
    PAD, SOH, STX,
};

#[test]
fn test_crc() {
    let data: Vec<u8> = vec![0x12, 0x34, 0x56, 0x78, 0x09];
    let result = crc(&data);
    assert_eq!(result, 0x5A76);
}

#[test]
fn test_crc_empty() {
    let data: Vec<u8> = vec![];
    assert_eq!(crc(&data), 0);
}

#[test]
fn test_checksum_wraps_modulo_256() {
    assert_eq!(checksum(&[0x01, 0xFF]), 0x00);
}

#[test]
fn test_checksum_small_sum() {
    assert_eq!(checksum(&[0x01, 0x02, 0x03]), 6);
    assert_eq!(checksum(&[]), 0);
}

#[test]
fn test_protocol_constants() {
    assert_eq!(SOH, 0x01);
    assert_eq!(STX, 0x02);
    assert_eq!(EOT, 0x04);
    assert_eq!(ACK, 0x06);
    assert_eq!(NAK, 0x15);
    assert_eq!(CAN, 0x18);
    assert_eq!(PAD, 0x1A);
}

#[test]
fn test_encode_checksum_layout() {
    let payload: Vec<u8> = vec![0xAA; 128];
    let frame = encode(7, &payload, Mode::Checksum);
    assert_eq!(frame.len(), 132);
    assert_eq!(frame[0], SOH);
    assert_eq!(frame[1], 7);
    assert_eq!(frame[2], 0xFF - 7);
    assert_eq!(&frame[3..131], &payload[..]);
    // 128 * 0xAA mod 256: 0xAA is even, 128 * 0xAA == 0 mod 256.
    assert_eq!(frame[131], 0x00);
}

#[test]
fn test_encode_crc_layout() {
    let payload: Vec<u8> = vec![0x55; 1024];
    let frame = encode(3, &payload, Mode::Crc16);
    assert_eq!(frame.len(), 1029);
    assert_eq!(frame[0], STX);
    assert_eq!(frame[1], 3);
    assert_eq!(frame[2], 0xFF - 3);
    assert_eq!(&frame[3..1027], &payload[..]);
    let c = crc(&payload);
    assert_eq!(frame[1027], (c >> 8) as u8);
    assert_eq!(frame[1028], (c & 0xFF) as u8);
}

#[test]
fn test_round_trip_128_checksum() {
    let payload: Vec<u8> = (0..128u32).map(|i| (i * 3 % 256) as u8).collect();
    let frame = encode(1, &payload, Mode::Checksum);
    let back = decode_and_validate(&frame, 1, Mode::Checksum).unwrap();
    assert_eq!(back, payload);
}

#[test]
fn test_round_trip_128_crc() {
    let payload: Vec<u8> = (0..128u32).map(|i| (i * 7 % 256) as u8).collect();
    let frame = encode(42, &payload, Mode::Crc16);
    let back = decode_and_validate(&frame, 42, Mode::Crc16).unwrap();
    assert_eq!(back, payload);
}

#[test]
fn test_round_trip_1024_both_modes() {
    let payload: Vec<u8> = (0..1024u32).map(|i| (i % 251) as u8).collect();
    let f1 = encode(9, &payload, Mode::Checksum);
    assert_eq!(decode_and_validate(&f1, 9, Mode::Checksum).unwrap(), payload);
    let f2 = encode(9, &payload, Mode::Crc16);
    assert_eq!(decode_and_validate(&f2, 9, Mode::Crc16).unwrap(), payload);
}

#[test]
fn test_round_trip_sequence_zero() {
    // 0 is a valid mid-transfer sequence number after wrapping.
    let payload: Vec<u8> = vec![0x11; 128];
    let frame = encode(0, &payload, Mode::Crc16);
    assert_eq!(decode_and_validate(&frame, 0, Mode::Crc16).unwrap(), payload);
}

#[test]
fn test_decode_rejects_bad_complement() {
    let payload: Vec<u8> = vec![0x22; 128];
    let mut frame = encode(5, &payload, Mode::Checksum);
    frame[2] = 0x00; // 5 + 0 != 0xFF
    assert_eq!(
        decode_and_validate(&frame, 5, Mode::Checksum),
        Err(DecodeError::ComplementMismatch)
    );
}

#[test]
fn test_decode_rejects_wrong_sequence() {
    let payload: Vec<u8> = vec![0x33; 128];
    let frame = encode(5, &payload, Mode::Checksum);
    assert_eq!(
        decode_and_validate(&frame, 6, Mode::Checksum),
        Err(DecodeError::SequenceMismatch)
    );
}

#[test]
fn test_decode_rejects_corrupted_payload() {
    let payload: Vec<u8> = vec![0x44; 128];
    let mut frame = encode(5, &payload, Mode::Crc16);
    frame[10] ^= 0x01;
    assert_eq!(
        decode_and_validate(&frame, 5, Mode::Crc16),
        Err(DecodeError::IntegrityMismatch)
    );
}

#[test]
fn test_decode_rejects_corrupted_trailer() {
    let payload: Vec<u8> = vec![0x77; 128];
    let mut frame = encode(5, &payload, Mode::Checksum);
    let last = frame.len() - 1;
    frame[last] = frame[last].wrapping_add(1);
    assert_eq!(
        decode_and_validate(&frame, 5, Mode::Checksum),
        Err(DecodeError::IntegrityMismatch)
    );
}

#[test]
fn test_decode_rejects_malformed() {
    assert_eq!(
        decode_and_validate(&[], 1, Mode::Checksum),
        Err(DecodeError::Malformed)
    );
    // A header that is neither SOH nor STX.
    let bad = vec![0x55u8; 132];
    assert_eq!(
        decode_and_validate(&bad, 1, Mode::Checksum),
        Err(DecodeError::Malformed)
    );
    // The right header but a truncated frame.
    let payload: Vec<u8> = vec![0x66; 128];
    let mut frame = encode(5, &payload, Mode::Checksum);
    frame.pop();
    assert_eq!(
        decode_and_validate(&frame, 5, Mode::Checksum),
        Err(DecodeError::Malformed)
    );
}

#[test]
fn test_next_seq_wraps() {
    assert_eq!(next_seq(1), 2);
    assert_eq!(next_seq(254), 255);
    assert_eq!(next_seq(255), 0);
    assert_eq!(next_seq(0), 1);
}
