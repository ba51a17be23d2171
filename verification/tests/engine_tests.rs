use xmodem_rs::codec::{encode, Mode, ACK, CAN, EOT, NAK, PAD};
use xmodem_rs::error::XModemError;
use xmodem_rs::transport::{MemSink, MemSource, MemTransport};
use xmodem_rs::xmodem::XModem;

const CRC_REQUEST: u8 = 0x43;

fn padded_block(bytes: &[u8]) -> Vec<u8> {
    let mut b = bytes.to_vec();
    while b.len() < 128 {
        b.push(PAD);
    }
    b
}

#[test]
fn test_send_300_bytes_checksum() {
    // A 300-byte source makes exactly 3 blocks, sequence numbers 1, 2, 3,
    // the last padded with 0x1A up to 128 bytes, followed by EOT.
    let source: Vec<u8> = (0..300u32).map(|i| (i % 256) as u8).collect();
    let script = vec![NAK, ACK, ACK, ACK, ACK];
    let mut device = MemTransport::new(script);
    let mut stream = MemSource::new(source.clone());

    let r = XModem::new().send(&mut device, &mut stream);
    assert_eq!(r, Ok(()));

    let mut expected: Vec<u8> = Vec::new();
    expected.extend(encode(1, &padded_block(&source[0..128]), Mode::Checksum));
    expected.extend(encode(2, &padded_block(&source[128..256]), Mode::Checksum));
    expected.extend(encode(3, &padded_block(&source[256..300]), Mode::Checksum));
    expected.push(EOT);
    assert_eq!(device.written(), &expected);

    // The final block's payload ends in 84 pad bytes.
    let third = &device.written()[2 * 132..3 * 132];
    assert_eq!(third[1], 3);
    assert!(third[3 + 44..3 + 128].iter().all(|&b| b == PAD));
}

#[test]
fn test_receive_300_bytes_checksum() {
    // The receiver of those 3 blocks ends with 384 bytes in its sink,
    // the bytes past 300 being pad filler.
    let source: Vec<u8> = (0..300u32).map(|i| (i % 256) as u8).collect();
    let mut script: Vec<u8> = Vec::new();
    script.extend(encode(1, &padded_block(&source[0..128]), Mode::Checksum));
    script.extend(encode(2, &padded_block(&source[128..256]), Mode::Checksum));
    script.extend(encode(3, &padded_block(&source[256..300]), Mode::Checksum));
    script.push(EOT);

    let mut device = MemTransport::new(script);
    let mut sink = MemSink::new();
    let r = XModem::new().receive(&mut device, &mut sink, false);
    assert_eq!(r, Ok(384));

    assert_eq!(sink.bytes().len(), 384);
    assert_eq!(&sink.bytes()[..300], &source[..]);
    assert!(sink.bytes()[300..].iter().all(|&b| b == PAD));

    // One sync byte, one ACK per block, and the final ACK for EOT.
    assert_eq!(device.written(), &vec![NAK, ACK, ACK, ACK, ACK]);
}

#[test]
fn test_mode_consistency_crc() {
    // A receiver that asked with 'C' gets CRC trailers: 133-byte frames.
    let source: Vec<u8> = vec![0xAB; 10];
    let script = vec![CRC_REQUEST, ACK, ACK];
    let mut device = MemTransport::new(script);
    let mut stream = MemSource::new(source.clone());

    let r = XModem::new().send(&mut device, &mut stream);
    assert_eq!(r, Ok(()));

    let mut expected: Vec<u8> = Vec::new();
    expected.extend(encode(1, &padded_block(&source), Mode::Crc16));
    expected.push(EOT);
    assert_eq!(device.written(), &expected);
    assert_eq!(device.written().len(), 133 + 1);
}

#[test]
fn test_mode_consistency_checksum() {
    // A receiver that asked with NAK gets checksum trailers: 132-byte frames.
    let source: Vec<u8> = vec![0xCD; 5];
    let script = vec![NAK, ACK, ACK];
    let mut device = MemTransport::new(script);
    let mut stream = MemSource::new(source.clone());

    assert_eq!(XModem::new().send(&mut device, &mut stream), Ok(()));
    assert_eq!(device.written().len(), 132 + 1);
}

#[test]
fn test_retry_exhaustion_all_nak() {
    // A peer that always replies NAK: the block is attempted exactly
    // retry_limit + 1 = 17 times, then the transfer aborts.
    let source: Vec<u8> = vec![0x42; 64];
    let mut script = vec![NAK]; // handshake: checksum mode
    script.extend(std::iter::repeat(NAK).take(17));
    let mut device = MemTransport::new(script);
    let mut stream = MemSource::new(source.clone());

    let r = XModem::new().send(&mut device, &mut stream);
    assert_eq!(r, Err(XModemError::TransferAborted));

    let frame = encode(1, &padded_block(&source), Mode::Checksum);
    assert_eq!(device.written().len(), 17 * frame.len());
    for k in 0..17 {
        assert_eq!(&device.written()[k * 132..(k + 1) * 132], &frame[..]);
    }
}

#[test]
fn test_sender_double_can() {
    // Two consecutive CANs during the handshake: cancelled, and the
    // sender never wrote a byte.
    let mut device = MemTransport::new(vec![CAN, CAN]);
    let mut stream = MemSource::new(vec![0x01; 10]);
    let r = XModem::new().send(&mut device, &mut stream);
    assert_eq!(r, Err(XModemError::Cancelled));
    assert_eq!(device.written().len(), 0);
}

#[test]
fn test_sender_can_interrupted_is_not_fatal() {
    // CAN followed by a normal handshake byte is not a cancellation.
    let source: Vec<u8> = vec![0x10; 4];
    let mut device = MemTransport::new(vec![CAN, NAK, ACK, ACK]);
    let mut stream = MemSource::new(source);
    assert_eq!(XModem::new().send(&mut device, &mut stream), Ok(()));
}

#[test]
fn test_receiver_double_can() {
    // Two consecutive CANs in place of a header: cancelled; the only
    // write was the initial sync byte.
    let mut device = MemTransport::new(vec![CAN, CAN]);
    let mut sink = MemSink::new();
    let r = XModem::new().receive(&mut device, &mut sink, false);
    assert_eq!(r, Err(XModemError::Cancelled));
    assert_eq!(device.written(), &vec![NAK]);
    assert_eq!(sink.bytes().len(), 0);
}

#[test]
fn test_sender_eot_during_handshake_cancels() {
    let mut device = MemTransport::new(vec![EOT]);
    let mut stream = MemSource::new(vec![0x01; 10]);
    let r = XModem::new().send(&mut device, &mut stream);
    assert_eq!(r, Err(XModemError::Cancelled));
}

#[test]
fn test_sender_synchronization_timeout() {
    // A silent peer: 17 handshake timeouts, then SynchronizationTimeout.
    let mut device = MemTransport::new(vec![]);
    let mut stream = MemSource::new(vec![0x01; 10]);
    let r = XModem::new().send(&mut device, &mut stream);
    assert_eq!(r, Err(XModemError::SynchronizationTimeout));
    assert_eq!(device.written().len(), 0);
}

#[test]
fn test_receiver_synchronization_timeout() {
    // A silent peer: the sync byte goes out once per attempt, 17 times.
    let mut device = MemTransport::new(vec![]);
    let mut sink = MemSink::new();
    let r = XModem::new().receive(&mut device, &mut sink, true);
    assert_eq!(r, Err(XModemError::SynchronizationTimeout));
    assert_eq!(device.written(), &vec![CRC_REQUEST; 17]);
}

#[test]
fn test_sender_eot_timeout() {
    // The source is empty, so the sender goes straight to EOT; a peer
    // that acknowledges nothing: 17 EOTs, then EndOfTransmissionTimeout.
    let mut device = MemTransport::new(vec![NAK]);
    let mut stream = MemSource::new(vec![]);
    let r = XModem::new().send(&mut device, &mut stream);
    assert_eq!(r, Err(XModemError::EndOfTransmissionTimeout));
    assert_eq!(device.written(), &vec![EOT; 17]);
}

#[test]
fn test_empty_source_sends_only_eot() {
    let mut device = MemTransport::new(vec![NAK, ACK]);
    let mut stream = MemSource::new(vec![]);
    assert_eq!(XModem::new().send(&mut device, &mut stream), Ok(()));
    assert_eq!(device.written(), &vec![EOT]);
}

#[test]
fn test_receiver_naks_bad_block_then_accepts() {
    // A corrupted block draws a NAK; the clean resend is accepted.
    let payload: Vec<u8> = (0..128u32).map(|i| (i % 256) as u8).collect();
    let good = encode(1, &payload, Mode::Checksum);
    let mut bad = good.clone();
    bad[10] ^= 0xFF;

    let mut script: Vec<u8> = Vec::new();
    script.extend(&bad);
    script.extend(&good);
    script.push(EOT);

    let mut device = MemTransport::new(script);
    let mut sink = MemSink::new();
    let r = XModem::new().receive(&mut device, &mut sink, false);
    assert_eq!(r, Ok(128));
    assert_eq!(sink.bytes(), &payload);
    assert_eq!(device.written(), &vec![NAK, NAK, ACK, ACK]);
}

#[test]
fn test_receiver_rejects_wrong_sequence_block() {
    // A block numbered 2 when 1 is expected draws NAKs until the limit.
    let payload: Vec<u8> = vec![0x5A; 128];
    let wrong = encode(2, &payload, Mode::Checksum);
    let mut script: Vec<u8> = Vec::new();
    for _ in 0..17 {
        script.extend(&wrong);
    }
    let mut device = MemTransport::new(script);
    let mut sink = MemSink::new();
    let r = XModem::new().receive(&mut device, &mut sink, false);
    assert_eq!(r, Err(XModemError::TransferAborted));
    assert_eq!(sink.bytes().len(), 0);
}

#[test]
fn test_receiver_1024_crc_block() {
    let payload: Vec<u8> = (0..1024u32).map(|i| (i % 199) as u8).collect();
    let mut script: Vec<u8> = Vec::new();
    script.extend(encode(1, &payload, Mode::Crc16));
    script.push(EOT);
    let mut device = MemTransport::new(script);
    let mut sink = MemSink::new();
    let r = XModem::new().receive(&mut device, &mut sink, true);
    assert_eq!(r, Ok(1024));
    assert_eq!(sink.bytes(), &payload);
}

#[test]
fn test_sequence_wraparound_256_blocks() {
    // 256 consecutive blocks carry sequence numbers 1, 2, ..., 255, 0.
    let source: Vec<u8> = (0..256 * 128u32).map(|i| (i % 256) as u8).collect();
    let mut script = vec![NAK];
    script.extend(std::iter::repeat(ACK).take(257));
    let mut device = MemTransport::new(script);
    let mut stream = MemSource::new(source);
    assert_eq!(XModem::new().send(&mut device, &mut stream), Ok(()));

    let written = device.written();
    assert_eq!(written.len(), 256 * 132 + 1);
    for k in 0..256usize {
        assert_eq!(written[k * 132 + 1], ((k + 1) % 256) as u8);
        assert_eq!(written[k * 132 + 2], 0xFF - ((k + 1) % 256) as u8);
    }
}

#[test]
fn test_receiver_wraparound_accepts_zero_after_255() {
    // A receiver that has taken 255 blocks expects 0 next and accepts it.
    let mut script: Vec<u8> = Vec::new();
    for k in 0..256usize {
        let payload: Vec<u8> = vec![(k % 256) as u8; 128];
        script.extend(encode(((k + 1) % 256) as u8, &payload, Mode::Checksum));
    }
    script.push(EOT);
    let mut device = MemTransport::new(script);
    let mut sink = MemSink::new();
    let r = XModem::new().receive(&mut device, &mut sink, false);
    assert_eq!(r, Ok(256 * 128));
    assert_eq!(sink.bytes()[255 * 128], 255);
}

#[test]
fn test_sender_ignores_garbage_then_syncs() {
    // Stray bytes before the handshake byte are retryable, not fatal.
    let source: Vec<u8> = vec![0x77; 8];
    let mut device = MemTransport::new(vec![0x00, 0x99, NAK, ACK, ACK]);
    let mut stream = MemSource::new(source);
    assert_eq!(XModem::new().send(&mut device, &mut stream), Ok(()));
}

#[test]
fn test_sender_source_failure_is_io_error() {
    let mut device = MemTransport::new(vec![NAK]);
    let mut stream = xmodem_rs::transport::FailingSource::new();
    let r = XModem::new().send(&mut device, &mut stream);
    assert_eq!(r, Err(XModemError::IoError));
}

#[test]
fn test_receiver_sink_failure_is_io_error() {
    let payload: Vec<u8> = vec![0x31; 128];
    let mut script: Vec<u8> = encode(1, &payload, Mode::Checksum);
    script.push(EOT);
    let mut device = MemTransport::new(script);
    let mut sink = xmodem_rs::transport::FailingSink::new();
    let r = XModem::new().receive(&mut device, &mut sink, false);
    assert_eq!(r, Err(XModemError::IoError));
    // The failed block was never acknowledged.
    assert_eq!(device.written(), &vec![NAK]);
}
