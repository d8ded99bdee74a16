//! Tests for the connection state machine: single steps, order
//! independence of the first exchange, and the end-to-end simulation of
//! a dialer and a listener over a connected in-memory socket pair.
use std::collections::VecDeque;

use substrate_padawan::error::PadawanError;
use substrate_padawan::handshake::{Action, Connection, Event, UpgradeState};
use substrate_padawan::multistream_select::mirror::listen_noise;
use substrate_padawan::multistream_select::Protocol;
use substrate_padawan::noise::libp2p::NoiseHandshake;
use substrate_padawan::noise::wire;
use tokio::io::{AsyncRead, AsyncReadExt, AsyncWrite, AsyncWriteExt};

#[test]
fn fresh_connection_is_not_completed() {
    let conn = Connection::generate();
    assert!(!conn.handshake_state().completed());
    assert!(matches!(
        conn.handshake_state(),
        UpgradeState::Initialization
    ));
}

#[test]
fn start_asks_for_the_header_exchange() {
    let mut conn = Connection::generate();
    let action = conn.dial_step(Event::Start).unwrap();
    match action {
        Action::Exchange { send, recv } => {
            assert_eq!(send, Protocol::Multistream.encode());
            assert_eq!(recv, Protocol::Multistream.encode().len());
        },
        _ => panic!("expected the concurrent header exchange"),
    }
}

#[test]
fn exchange_converges_in_either_order() {
    let response = Protocol::Multistream.encode();

    let mut sent_first = Connection::generate();
    sent_first.dial_step(Event::Start).unwrap();
    assert!(matches!(
        sent_first.dial_step(Event::Sent).unwrap(),
        Action::Wait
    ));
    let a1 = sent_first.dial_step(Event::Data(response.clone())).unwrap();

    let mut received_first = Connection::generate();
    received_first.dial_step(Event::Start).unwrap();
    assert!(matches!(
        received_first.dial_step(Event::Data(response)).unwrap(),
        Action::Wait
    ));
    let a2 = received_first.dial_step(Event::Sent).unwrap();

    // Both orders advance to the negotiation stage with the same
    // proposal to write.
    match (a1, a2) {
        (Action::Send(x), Action::Send(y)) => {
            assert_eq!(x, y);
            assert_eq!(x, Protocol::Noise.encode());
        },
        _ => panic!("expected the noise proposal in both orders"),
    }
    assert!(matches!(
        sent_first.handshake_state(),
        UpgradeState::Negotiation
    ));
    assert!(matches!(
        received_first.handshake_state(),
        UpgradeState::Negotiation
    ));
}

#[test]
fn exchange_mismatch_fails_in_either_order() {
    let response = Protocol::Yamux.encode();

    let mut sent_first = Connection::generate();
    sent_first.dial_step(Event::Start).unwrap();
    sent_first.dial_step(Event::Sent).unwrap();
    let r1 = sent_first.dial_step(Event::Data(response.clone()));

    let mut received_first = Connection::generate();
    received_first.dial_step(Event::Start).unwrap();
    received_first.dial_step(Event::Data(response)).unwrap();
    let r2 = received_first.dial_step(Event::Sent);

    assert!(matches!(r1, Err(PadawanError::HandshakeFailed)));
    assert!(matches!(r2, Err(PadawanError::HandshakeFailed)));
    assert!(matches!(sent_first.handshake_state(), UpgradeState::Failed));
    assert!(matches!(
        received_first.handshake_state(),
        UpgradeState::Failed
    ));
}

#[test]
fn io_failure_fails_the_handshake() {
    let mut conn = Connection::generate();
    conn.dial_step(Event::Start).unwrap();
    assert!(matches!(
        conn.dial_step(Event::Failure),
        Err(PadawanError::HandshakeFailed)
    ));
    assert!(matches!(conn.handshake_state(), UpgradeState::Failed));
    // The failed state is terminal.
    assert!(matches!(
        conn.dial_step(Event::Sent),
        Err(PadawanError::HandshakeFailed)
    ));
}

#[test]
fn listener_echoes_noise_proposal() {
    let mut conn = Connection::generate();
    conn.listen_step(Event::Start).unwrap();
    conn.listen_step(Event::Sent).unwrap();
    let action = conn
        .listen_step(Event::Data(Protocol::Multistream.encode()))
        .unwrap();
    // The listener now waits for the dialer's protocol proposal.
    match action {
        Action::Recv(n) => assert_eq!(n, Protocol::Noise.encode().len()),
        _ => panic!("expected a read of the proposal"),
    }
    let action = conn
        .listen_step(Event::Data(Protocol::Noise.encode()))
        .unwrap();
    match action {
        Action::Send(echo) => assert_eq!(echo, Protocol::Noise.encode()),
        _ => panic!("expected the echo of the proposal"),
    }
}

/// Step the dialer and panic unless it asks to write, returning the
/// bytes.
fn expect_send(conn: &mut Connection, event: Event) -> Vec<u8> {
    match conn.dial_step(event).unwrap() {
        Action::Send(bytes) => bytes,
        _ => panic!("expected a write"),
    }
}

#[test]
fn mismatched_multiplexer_echo_fails() {
    // Drive the dialer machine against a hand-operated listener engine.
    let mut dialer = Connection::generate();
    dialer.dial_step(Event::Start).unwrap();
    dialer.dial_step(Event::Sent).unwrap();
    dialer
        .dial_step(Event::Data(Protocol::Multistream.encode()))
        .unwrap();
    dialer.dial_step(Event::Sent).unwrap();
    let hello = expect_send(&mut dialer, Event::Data(Protocol::Noise.encode()));

    let keypair = libp2p_identity::Keypair::generate_ed25519();
    let mut listener = NoiseHandshake::listener().unwrap();
    listener.recv_hello(hello[2..].to_vec()).unwrap();
    let identity_frame = listener.send_identity(&keypair).unwrap();

    dialer.dial_step(Event::Sent).unwrap();
    dialer
        .dial_step(Event::Data(identity_frame[..2].to_vec()))
        .unwrap();
    let reply_frame = expect_send(&mut dialer, Event::Data(identity_frame[2..].to_vec()));
    listener.recv_identity(reply_frame[2..].to_vec()).unwrap();
    let mut transport = listener.into_inner().into_transport().unwrap();

    // First multiplex round: echo the proposal faithfully.
    let proposal = expect_send(&mut dialer, Event::Sent);
    let echo = listen_noise(&mut transport, proposal[2..].to_vec()).unwrap();
    dialer.dial_step(Event::Sent).unwrap();
    dialer.dial_step(Event::Data(echo[..2].to_vec())).unwrap();
    let yamux_proposal = expect_send(&mut dialer, Event::Data(echo[2..].to_vec()));

    // Second round: answer the yamux proposal with a different
    // protocol. The echo decrypts, but the mismatch must abort.
    transport.set_encrypted(yamux_proposal[2..].to_vec());
    transport.decrypt().unwrap();
    transport.set_write(Protocol::Noise.encode());
    let ciphertext = transport.encrypt().unwrap();
    let bad_echo = wire::send(&ciphertext).unwrap();

    dialer.dial_step(Event::Sent).unwrap();
    dialer
        .dial_step(Event::Data(bad_echo[..2].to_vec()))
        .unwrap();
    let outcome = dialer.dial_step(Event::Data(bad_echo[2..].to_vec()));
    assert!(matches!(outcome, Err(PadawanError::HandshakeFailed)));
    assert!(matches!(dialer.handshake_state(), UpgradeState::Failed));
}

/// Drive one side of the handshake over a socket half pair.
async fn drive<R, W>(
    rd: &mut R,
    wr: &mut W,
    conn: &mut Connection,
    dialer: bool,
) -> Result<(), PadawanError>
where
    R: AsyncRead + Unpin,
    W: AsyncWrite + Unpin,
{
    let mut pending: VecDeque<Event> = VecDeque::new();
    pending.push_back(Event::Start);
    loop {
        let event = pending.pop_front().expect("an event should be pending");
        let step = if dialer {
            conn.dial_step(event)
        } else {
            conn.listen_step(event)
        };
        match step? {
            Action::Done => return Ok(()),
            Action::Wait => {},
            Action::Recv(n) => {
                let mut buf = vec![0u8; n];
                match rd.read_exact(&mut buf).await {
                    Ok(_) => pending.push_back(Event::Data(buf)),
                    Err(_) => pending.push_back(Event::Failure),
                }
            },
            Action::Send(bytes) => match wr.write_all(&bytes).await {
                Ok(()) => pending.push_back(Event::Sent),
                Err(_) => pending.push_back(Event::Failure),
            },
            Action::Exchange { send, recv } => {
                // The in-memory pair buffers the small header, so the
                // write completes before the peer reads.
                match wr.write_all(&send).await {
                    Ok(()) => pending.push_back(Event::Sent),
                    Err(_) => pending.push_back(Event::Failure),
                }
                let mut buf = vec![0u8; recv];
                match rd.read_exact(&mut buf).await {
                    Ok(_) => pending.push_back(Event::Data(buf)),
                    Err(_) => pending.push_back(Event::Failure),
                }
            },
        }
    }
}

#[test]
fn end_to_end_simulation_reaches_established() {
    let rt = tokio::runtime::Runtime::new().unwrap();
    rt.block_on(async {
        let (a, b) = tokio::io::duplex(1 << 16);
        let dial_task = tokio::spawn(async move {
            let (mut ra, mut wa) = tokio::io::split(a);
            let mut dialer = Connection::generate();
            let dialed = drive(&mut ra, &mut wa, &mut dialer, true).await;
            (dialer, dialed)
        });
        let listen_task = tokio::spawn(async move {
            let (mut rb, mut wb) = tokio::io::split(b);
            let mut listener = Connection::generate();
            let listened = drive(&mut rb, &mut wb, &mut listener, false).await;
            (listener, listened)
        });
        let (mut dialer, dialed) = dial_task.await.unwrap();
        let (listener, listened) = listen_task.await.unwrap();
        dialed.unwrap();
        listened.unwrap();
        assert!(dialer.handshake_state().completed());
        assert!(listener.handshake_state().completed());
        // Terminal success is stable: further steps just report it.
        assert!(matches!(
            dialer.dial_step(Event::Start).unwrap(),
            Action::Done
        ));
    });
}
