//! Tests for the Noise handshake engine, the identity payload, and the
//! three-message exchange run in memory.
use substrate_padawan::error::PadawanError;
use substrate_padawan::noise::libp2p::{Identity, NoiseHandshake, NoiseHandshakePayload};
use substrate_padawan::noise::{Buffer, Handshake};

#[test]
fn build_initiator() {
    assert!(Handshake::build_initiator().is_ok());
}

#[test]
fn buffer_starts_empty_and_keeps_sets_apart() {
    let mut buffer = Buffer::new();
    assert!(buffer.read().is_empty());
    assert!(buffer.write().is_empty());
    assert!(buffer.encrypted().is_empty());
    buffer.set_write(vec![1, 2, 3]);
    buffer.set_encrypted(vec![4, 5]);
    assert_eq!(buffer.write(), &vec![1, 2, 3]);
    assert_eq!(buffer.encrypted(), &vec![4, 5]);
    assert!(buffer.read().is_empty());
}

#[test]
fn build_responder() {
    assert!(Handshake::build_responder().is_ok());
}

#[test]
fn payload_roundtrip() {
    let payload = NoiseHandshakePayload {
        identity_key: Some(vec![1, 2, 3, 4]),
        identity_sig: Some(vec![9; 64]),
        extensions: None,
    };
    let encoded = payload.encode();
    let decoded = NoiseHandshakePayload::decode(&encoded).unwrap();
    assert_eq!(decoded.identity_key, payload.identity_key);
    assert_eq!(decoded.identity_sig, payload.identity_sig);
    assert_eq!(decoded.extensions, payload.extensions);
}

#[test]
fn payload_roundtrip_long_field() {
    let payload = NoiseHandshakePayload {
        identity_key: None,
        identity_sig: Some(vec![7u8; 200]),
        extensions: Some(vec![]),
    };
    let encoded = payload.encode();
    // Tag of field 2, then the length 200 as a two-byte varint.
    assert_eq!(&encoded[..3], &[0x12, 0xC8, 0x01]);
    let decoded = NoiseHandshakePayload::decode(&encoded).unwrap();
    assert_eq!(decoded.identity_key, None);
    assert_eq!(decoded.identity_sig, Some(vec![7u8; 200]));
    assert_eq!(decoded.extensions, Some(vec![]));
}

#[test]
fn payload_encoding_is_protobuf() {
    let payload = NoiseHandshakePayload {
        identity_key: Some(vec![0xAA, 0xBB]),
        identity_sig: None,
        extensions: None,
    };
    // Field 1, wire type 2, length 2, then the bytes.
    assert_eq!(payload.encode(), vec![0x0A, 2, 0xAA, 0xBB]);
}

#[test]
fn payload_decode_skips_unknown_fields() {
    // Field 5 (tag 0x2A, wire type 2) is skipped; field 2 is kept.
    let bytes = vec![0x2A, 1, 0xFF, 0x12, 2, 7, 8];
    let decoded = NoiseHandshakePayload::decode(&bytes).unwrap();
    assert_eq!(decoded.identity_key, None);
    assert_eq!(decoded.identity_sig, Some(vec![7, 8]));
}

#[test]
fn payload_decode_rejects_bad_wire_type() {
    // Field 1 with wire type 0 (varint) is not accepted here.
    let bytes = vec![0x08, 1];
    assert!(matches!(
        NoiseHandshakePayload::decode(&bytes),
        Err(PadawanError::DecodePayload)
    ));
}

#[test]
fn payload_decode_rejects_truncated_field() {
    let bytes = vec![0x0A, 5, 1, 2];
    assert!(NoiseHandshakePayload::decode(&bytes).is_err());
}

#[test]
fn identity_message_has_prefix() {
    let msg = Identity::new(&[1, 2, 3]).into_message();
    let mut expected = b"noise-libp2p-static-key:".to_vec();
    expected.extend_from_slice(&[1, 2, 3]);
    assert_eq!(msg, expected);
}

/// Run the three-message XX exchange in memory and hand back both
/// engines, still in the handshake phase.
fn run_xx() -> (NoiseHandshake, NoiseHandshake) {
    let kp_dial = libp2p_identity::Keypair::generate_ed25519();
    let kp_listen = libp2p_identity::Keypair::generate_ed25519();
    let mut dialer = NoiseHandshake::dialer().unwrap();
    let mut listener = NoiseHandshake::listener().unwrap();

    // Message 1: dialer hello. The frame's first two bytes are the
    // length header; the engine consumes the payload.
    let frame = dialer.hello().unwrap();
    listener.recv_hello(frame[2..].to_vec()).unwrap();

    // Message 2: listener identity.
    let frame = listener.send_identity(&kp_listen).unwrap();
    dialer.recv_identity(frame[2..].to_vec()).unwrap();

    // Message 3: dialer identity.
    let frame = dialer.send_identity(&kp_dial).unwrap();
    listener.recv_identity(frame[2..].to_vec()).unwrap();

    (dialer, listener)
}

#[test]
fn xx_exchange_verifies_both_identities() {
    // recv_identity in run_xx already unwraps the verification on both
    // sides; afterwards each side has learned the other's static key.
    let (dialer, listener) = run_xx();
    let dialer_inner = dialer.into_inner();
    let listener_inner = listener.into_inner();
    assert_eq!(
        dialer_inner.remote_static().unwrap(),
        listener_inner.local_static()
    );
    assert_eq!(
        listener_inner.remote_static().unwrap(),
        dialer_inner.local_static()
    );
}

#[test]
fn xx_exchange_learns_the_peers_identity_key() {
    // The identity key each side last decrypted and verified is
    // exactly the public identity key the peer generated.
    let kp_dial = libp2p_identity::Keypair::generate_ed25519();
    let kp_listen = libp2p_identity::Keypair::generate_ed25519();
    let mut dialer = NoiseHandshake::dialer().unwrap();
    let mut listener = NoiseHandshake::listener().unwrap();

    let frame = dialer.hello().unwrap();
    listener.recv_hello(frame[2..].to_vec()).unwrap();
    let frame = listener.send_identity(&kp_listen).unwrap();
    dialer.recv_identity(frame[2..].to_vec()).unwrap();

    // The decrypted payload sits in the dialer's read buffer.
    let inner = dialer.into_inner();
    let payload = NoiseHandshakePayload::decode(inner.buffer().read()).unwrap();
    assert_eq!(
        payload.identity_key,
        Some(kp_listen.public().encode_protobuf())
    );
}

#[test]
fn xx_exchange_reaches_transport_phase() {
    let (dialer, listener) = run_xx();
    assert!(dialer.into_inner().into_transport().is_ok());
    assert!(listener.into_inner().into_transport().is_ok());
}

#[test]
fn transport_too_early_fails() {
    let mut dialer = NoiseHandshake::dialer().unwrap();
    let _ = dialer.hello().unwrap();
    assert!(matches!(
        dialer.into_inner().into_transport(),
        Err(PadawanError::Snow(_))
    ));
}

#[test]
fn tampered_identity_signature_fails_verification() {
    // Build a payload exactly as a sender would, then flip one byte of
    // the signature: verification must fail, never silently succeed.
    let keypair = libp2p_identity::Keypair::generate_ed25519();
    let noise_static = vec![0x42u8; 32];
    let msg = Identity::new(&noise_static).into_message();
    let sig = keypair.sign(&msg).unwrap();

    let intact = NoiseHandshakePayload {
        identity_key: Some(keypair.public().encode_protobuf()),
        identity_sig: Some(sig.clone()),
        extensions: None,
    };
    assert!(intact.verify_identity(Identity::new(&noise_static)).is_ok());

    let mut bad_sig = sig;
    bad_sig[17] ^= 0x01;
    let tampered = NoiseHandshakePayload {
        identity_key: Some(keypair.public().encode_protobuf()),
        identity_sig: Some(bad_sig),
        extensions: None,
    };
    assert!(matches!(
        tampered.verify_identity(Identity::new(&noise_static)),
        Err(PadawanError::IdVerification)
    ));
}

#[test]
fn missing_signature_fails_verification() {
    let keypair = libp2p_identity::Keypair::generate_ed25519();
    let payload = NoiseHandshakePayload {
        identity_key: Some(keypair.public().encode_protobuf()),
        identity_sig: None,
        extensions: None,
    };
    assert!(payload.verify_identity(Identity::new(&[0u8; 32])).is_err());
}

#[test]
fn malformed_identity_key_fails_verification() {
    let payload = NoiseHandshakePayload {
        identity_key: Some(vec![1, 2, 3]),
        identity_sig: Some(vec![0; 64]),
        extensions: None,
    };
    assert!(matches!(
        payload.verify_identity(Identity::new(&[0u8; 32])),
        Err(PadawanError::KeyDecodeError(_))
    ));
}

#[test]
fn flipped_ciphertext_bit_fails_decryption() {
    // Flipping one bit of a transport-phase ciphertext must be a hard
    // decryption error, never wrong plaintext that is accepted.
    let (dialer, listener) = run_xx();
    let mut sender = dialer.into_inner().into_transport().unwrap();
    let mut receiver = listener.into_inner().into_transport().unwrap();

    sender.set_write(b"attack at dawn".to_vec());
    let mut ciphertext = sender.encrypt().unwrap();
    ciphertext[3] ^= 0x10;
    receiver.set_encrypted(ciphertext);
    assert!(matches!(receiver.decrypt(), Err(PadawanError::Snow(_))));
}

#[test]
fn intact_ciphertext_decrypts_exactly() {
    let (dialer, listener) = run_xx();
    let mut sender = dialer.into_inner().into_transport().unwrap();
    let mut receiver = listener.into_inner().into_transport().unwrap();

    sender.set_write(b"attack at dawn".to_vec());
    let ciphertext = sender.encrypt().unwrap();
    receiver.set_encrypted(ciphertext);
    assert_eq!(receiver.decrypt().unwrap(), b"attack at dawn");
}
