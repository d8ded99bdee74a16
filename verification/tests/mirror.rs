//! Tests for the negotiation mirror algorithms.
use substrate_padawan::error::PadawanError;
use substrate_padawan::multistream_select::mirror::{
    dial, dial_noise, dial_noise_check, listen, listen_noise, Concurrent,
};
use substrate_padawan::multistream_select::{encode, Protocol};
use substrate_padawan::noise::libp2p::NoiseHandshake;
use substrate_padawan::noise::Transport;

#[test]
fn concurrent_agrees_on_matching_response() {
    let mut ex = Concurrent::new(Protocol::Multistream);
    assert!(!ex.done());
    ex.on_sent();
    assert!(!ex.done());
    ex.on_received(Protocol::Multistream.encode());
    assert!(ex.done());
    assert!(ex.agreed());
}

#[test]
fn concurrent_rejects_mismatching_response() {
    let mut ex = Concurrent::new(Protocol::Multistream);
    ex.on_received(Protocol::Noise.encode());
    ex.on_sent();
    assert!(ex.done());
    assert!(!ex.agreed());
}

#[test]
fn concurrent_converges_in_either_order() {
    let response = Protocol::Multistream.encode();
    let mut first_sent = Concurrent::new(Protocol::Multistream);
    first_sent.on_sent();
    first_sent.on_received(response.clone());
    let mut first_received = Concurrent::new(Protocol::Multistream);
    first_received.on_received(response);
    first_received.on_sent();
    assert_eq!(first_sent.done(), first_received.done());
    assert_eq!(first_sent.agreed(), first_received.agreed());
}

#[test]
fn dial_compares_response() {
    assert!(dial(Protocol::Noise, &Protocol::Noise.encode()));
    assert!(!dial(Protocol::Noise, &Protocol::Yamux.encode()));
}

#[test]
fn listen_echoes_known_protocol() {
    let echo = listen(&Protocol::Noise.encode()).unwrap();
    assert_eq!(echo, Protocol::Noise.encode());
}

#[test]
fn listen_mirrors_unknown_protocol_as_na() {
    let echo = listen(&encode(b"/quic/1\n")).unwrap();
    assert_eq!(echo, Protocol::NotAvailable.encode());
}

#[test]
fn listen_rejects_invalid_encoding() {
    assert!(matches!(
        listen(b"invalid"),
        Err(PadawanError::InvalidMultistreamEncoding)
    ));
}

/// Run the in-memory XX exchange and return both transports.
fn transports() -> (Transport, Transport) {
    let kp_dial = libp2p_identity::Keypair::generate_ed25519();
    let kp_listen = libp2p_identity::Keypair::generate_ed25519();
    let mut dialer = NoiseHandshake::dialer().unwrap();
    let mut listener = NoiseHandshake::listener().unwrap();
    let frame = dialer.hello().unwrap();
    listener.recv_hello(frame[2..].to_vec()).unwrap();
    let frame = listener.send_identity(&kp_listen).unwrap();
    dialer.recv_identity(frame[2..].to_vec()).unwrap();
    let frame = dialer.send_identity(&kp_dial).unwrap();
    listener.recv_identity(frame[2..].to_vec()).unwrap();
    (
        dialer.into_inner().into_transport().unwrap(),
        listener.into_inner().into_transport().unwrap(),
    )
}

#[test]
fn dial_noise_roundtrip_through_listener() {
    let (mut dial_side, mut listen_side) = transports();

    // The dialer proposes the multiplexer inside the encrypted channel.
    let frame = dial_noise(&mut dial_side, Protocol::Yamux).unwrap();
    // The listener decrypts, decodes, and echoes.
    let echo_frame = listen_noise(&mut listen_side, frame[2..].to_vec()).unwrap();
    // The dialer accepts the echo.
    let matched = dial_noise_check(&mut dial_side, Protocol::Yamux, echo_frame[2..].to_vec());
    assert!(matched.unwrap());
}

#[test]
fn dial_noise_check_detects_mismatch() {
    let (mut dial_side, mut listen_side) = transports();

    let frame = dial_noise(&mut dial_side, Protocol::Yamux).unwrap();
    let echo_frame = listen_noise(&mut listen_side, frame[2..].to_vec()).unwrap();
    // Expecting a different protocol than what was echoed.
    let matched = dial_noise_check(
        &mut dial_side,
        Protocol::Multistream,
        echo_frame[2..].to_vec(),
    );
    assert!(!matched.unwrap());
}
