//! Tests for the noise-frame wire format.
use substrate_padawan::error::PadawanError;
use substrate_padawan::noise::wire::{frame_len, recv, send, MAX_FRAME_SIZE, MAX_PAYLOAD_SIZE};

#[test]
fn frame_sizes() {
    assert_eq!(MAX_FRAME_SIZE, 65536);
    assert_eq!(MAX_PAYLOAD_SIZE, 65536 - 1024);
}

#[test]
fn send_prefixes_big_endian_length() {
    let frame = send(b"abc").unwrap();
    assert_eq!(frame, vec![0u8, 3, b'a', b'b', b'c']);
    let frame = send(&[7u8; 300]).unwrap();
    assert_eq!(frame[0], 1);
    assert_eq!(frame[1], 44);
    assert_eq!(frame.len(), 302);
}

#[test]
fn frame_roundtrip_empty() {
    let frame = send(b"").unwrap();
    assert_eq!(recv(&frame).unwrap(), b"");
}

#[test]
fn frame_roundtrip_small() {
    let payload = b"hello noise frame";
    let frame = send(payload).unwrap();
    assert_eq!(recv(&frame).unwrap(), payload);
}

#[test]
fn frame_roundtrip_max_payload() {
    let payload = vec![0x5Au8; MAX_PAYLOAD_SIZE];
    let frame = send(&payload).unwrap();
    assert_eq!(frame.len(), MAX_PAYLOAD_SIZE + 2);
    assert_eq!(recv(&frame).unwrap(), payload);
}

#[test]
fn send_oversized_payload_fails_without_output() {
    let payload = vec![0u8; MAX_PAYLOAD_SIZE + 1];
    assert!(matches!(
        send(&payload),
        Err(PadawanError::NoiseFrameSizeExceeded)
    ));
}

#[test]
fn recv_rejects_malformed_frames() {
    // Too short for a header.
    assert!(matches!(
        recv(&[0u8]),
        Err(PadawanError::InvalidNoiseFrame)
    ));
    // Declared length disagrees with the body.
    assert!(matches!(
        recv(&[0u8, 4, 1, 2, 3]),
        Err(PadawanError::InvalidNoiseFrame)
    ));
    assert!(matches!(
        recv(&[0u8, 2, 1, 2, 3]),
        Err(PadawanError::InvalidNoiseFrame)
    ));
}

#[test]
fn frame_len_big_endian() {
    assert_eq!(frame_len(0, 0), 0);
    assert_eq!(frame_len(1, 44), 300);
    assert_eq!(frame_len(255, 255), 65535);
}
