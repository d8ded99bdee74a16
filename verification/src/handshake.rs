//! The per-connection state machine of the `libp2p` upgrade
//! negotiation: `multistream_select`, the noise handshake, and the
//! `yamux` negotiation, driven through a fixed stage sequence for one
//! socket in either the dialer or the listener role.
//!
//! The machine performs no I/O. Each call to [`Connection::dial_step`]
//! or [`Connection::listen_step`] consumes one [`Event`] — bytes that
//! arrived, or the completion of a write — and yields the next
//! [`Action`] for the driver: bytes to write, a byte count to read, or
//! both at once during the first exchange.
//!
//! Every hard error moves the connection into the terminal `Failed`
//! state and is returned to the caller as it is; a negotiation mismatch
//! is returned as `HandshakeFailed`. (The underlying crypto errors are
//! thereby folded into the same terminal state as negotiation
//! failures, for a single uniform error path.)
use vstd::prelude::*;

use crate::error::PadawanError;
use crate::identity;
use crate::multistream_select::{mirror, spec_encode, Protocol};
use crate::noise::libp2p::NoiseHandshake;
use crate::noise::wire;
use crate::noise::{copy_bytes, Transport};

verus! {

/// Represent the state of the `libp2p` upgrade negotiation.
///
/// Transitions are strictly forward through `Initialization`,
/// `Negotiation`, `Noise`, `Multiplex`, `Established`, except for the
/// transition into `Failed`, which is reachable from any non-terminal
/// state. `Established` and `Failed` are terminal. The `Multiplex`
/// state owns the negotiated secure transport.
pub enum UpgradeState {
    Established,
    Initialization,
    Negotiation,
    Noise,
    Multiplex(Box<Transport>),
    Failed,
}

/// The position of a state in the forward stage order.
pub open spec fn stage(s: UpgradeState) -> int {
    match s {
        UpgradeState::Initialization => 0,
        UpgradeState::Negotiation => 1,
        UpgradeState::Noise => 2,
        UpgradeState::Multiplex(_) => 3,
        UpgradeState::Established => 4,
        UpgradeState::Failed => 5,
    }
}

impl UpgradeState {
    /// Whether the upgrade has completed successfully.
    pub fn completed(&self) -> (r: bool)
        ensures
            r == (*self is Established),
    {
        matches!(self, UpgradeState::Established)
    }
}

impl Default for UpgradeState {
    /// A fresh connection starts in `Initialization`.
    fn default() -> (r: Self)
        ensures
            r is Initialization,
    {
        UpgradeState::Initialization
    }
}

/// What the driver tells the state machine.
pub enum Event {
    /// Begin the handshake; the first event on a connection.
    Start,
    /// The previously requested write completed.
    Sent,
    /// The previously requested read completed with these bytes.
    Data(Vec<u8>),
    /// The driver's I/O failed.
    Failure,
}

/// What the state machine asks the driver to do next.
pub enum Action {
    /// Read exactly this many bytes, then report [`Event::Data`].
    Recv(usize),
    /// Write these bytes fully, then report [`Event::Sent`].
    Send(Vec<u8>),
    /// Write `send` fully and read exactly `recv` bytes, concurrently;
    /// report [`Event::Sent`] and [`Event::Data`] in completion order.
    Exchange { send: Vec<u8>, recv: usize },
    /// No new I/O: the other half of the exchange is still pending;
    /// report its completion next.
    Wait,
    /// The handshake is over; stop driving.
    Done,
}

/// Where within a stage the machine stands, between two events.
enum Phase {
    /// No I/O outstanding: before `Start` and in the terminal states.
    Idle,
    /// The concurrent `multistream_select` header exchange.
    MsExchange(mirror::Concurrent),
    /// Dialer: the noise proposal is being written.
    DialNegSent,
    /// Dialer: awaiting the echo of the noise proposal.
    DialNegAwait,
    /// Dialer: the first noise handshake message is being written.
    DialHelloSent(NoiseHandshake),
    /// Dialer: awaiting the frame header of the identity message.
    DialIdHdr(NoiseHandshake),
    /// Dialer: awaiting the frame body of the identity message.
    DialIdBody(NoiseHandshake),
    /// Dialer: the local identity message is being written.
    DialIdSent(NoiseHandshake),
    /// Dialer: a multiplex proposal is being written.
    DialMpxSent { yamux: bool },
    /// Dialer: awaiting the frame header of the multiplex echo.
    DialMpxHdr { yamux: bool },
    /// Dialer: awaiting the frame body of the multiplex echo.
    DialMpxBody { yamux: bool },
    /// Listener: awaiting the dialer's noise proposal.
    ListenNegAwait,
    /// Listener: the echo of the proposal is being written.
    ListenNegEcho,
    /// Listener: awaiting the frame header of the dialer's hello.
    ListenHelloHdr(NoiseHandshake),
    /// Listener: awaiting the frame body of the dialer's hello.
    ListenHelloBody(NoiseHandshake),
    /// Listener: the local identity message is being written.
    ListenIdSent(NoiseHandshake),
    /// Listener: awaiting the frame header of the identity message.
    ListenIdHdr(NoiseHandshake),
    /// Listener: awaiting the frame body of the identity message.
    ListenIdBody(NoiseHandshake),
    /// Listener: awaiting the frame header of a multiplex proposal.
    ListenMpxHdr { yamux: bool },
    /// Listener: awaiting the frame body of a multiplex proposal.
    ListenMpxBody { yamux: bool },
    /// Listener: the echo of a multiplex proposal is being written.
    ListenMpxEchoSent { yamux: bool },
}

/// Represent a connection of the local node acting either as a dialer
/// or listener: the upgrade state, the long-term identity keypair, and
/// the derived local peer identifier.
pub struct Connection {
    state: UpgradeState,
    phase: Phase,
    keypair: libp2p_identity::Keypair,
    peer_id: libp2p_identity::PeerId,
}

impl Connection {
    /// The phase never stands in a later stage than the state: outside
    /// the idle positions, each phase belongs to exactly one stage.
    #[verifier::type_invariant]
    closed spec fn inv(self) -> bool {
        match self.phase {
            Phase::Idle => true,
            Phase::MsExchange(_) => self.state is Initialization,
            Phase::DialNegSent => self.state is Negotiation,
            Phase::DialNegAwait => self.state is Negotiation,
            Phase::ListenNegAwait => self.state is Negotiation,
            Phase::ListenNegEcho => self.state is Negotiation,
            Phase::DialHelloSent(_) => self.state is Noise,
            Phase::DialIdHdr(_) => self.state is Noise,
            Phase::DialIdBody(_) => self.state is Noise,
            Phase::DialIdSent(_) => self.state is Noise,
            Phase::ListenHelloHdr(_) => self.state is Noise,
            Phase::ListenHelloBody(_) => self.state is Noise,
            Phase::ListenIdSent(_) => self.state is Noise,
            Phase::ListenIdHdr(_) => self.state is Noise,
            Phase::ListenIdBody(_) => self.state is Noise,
            Phase::DialMpxSent { .. } => self.state is Multiplex,
            Phase::DialMpxHdr { .. } => self.state is Multiplex,
            Phase::DialMpxBody { .. } => self.state is Multiplex,
            Phase::ListenMpxHdr { .. } => self.state is Multiplex,
            Phase::ListenMpxBody { .. } => self.state is Multiplex,
            Phase::ListenMpxEchoSent { .. } => self.state is Multiplex,
        }
    }

    /// The connection's upgrade state.
    pub closed spec fn spec_state(&self) -> UpgradeState {
        self.state
    }

    /// The connection's peer identifier.
    pub closed spec fn spec_peer_id(&self) -> libp2p_identity::PeerId {
        self.peer_id
    }

    /// Whether no I/O is outstanding, as right after construction.
    pub closed spec fn spec_idle(&self) -> bool {
        self.phase is Idle
    }

    /// Whether the pending event is the echo of the dialer's noise
    /// proposal, byte for byte — the condition without which the
    /// dialer's `Negotiation` never advances to `Noise`.
    pub closed spec fn neg_echo_matches(self, event: Event) -> bool {
        &&& self.phase is DialNegAwait
        &&& match event {
            Event::Data(d) => d@ == spec_encode(Protocol::Noise),
            _ => false,
        }
    }

    /// The protocol whose multiplex echo the dialer stands ready to
    /// judge, if any.
    pub closed spec fn mpx_round(&self) -> Option<Protocol> {
        match self.phase {
            Phase::DialMpxBody { yamux } => Some(
                if yamux {
                    Protocol::Yamux
                } else {
                    Protocol::Multistream
                },
            ),
            _ => None,
        }
    }

    /// Whether the listener stands ready to judge the dialer's
    /// protocol proposal.
    pub closed spec fn awaiting_proposal(&self) -> bool {
        self.phase is ListenNegAwait
    }

    /// Whether the machine stands ready to consume a two-byte frame
    /// header.
    pub closed spec fn awaiting_frame_header(&self) -> bool {
        match self.phase {
            Phase::DialIdHdr(_) => true,
            Phase::DialMpxHdr { .. } => true,
            Phase::ListenHelloHdr(_) => true,
            Phase::ListenIdHdr(_) => true,
            Phase::ListenMpxHdr { .. } => true,
            _ => false,
        }
    }

    /// Whether the pending event completes the header exchange with
    /// the peer's bytes matching the expected encoding — the condition
    /// under which `Initialization` advances to `Negotiation`.
    pub closed spec fn ms_complete_agreed(self, event: Event) -> bool {
        match self.phase {
            Phase::MsExchange(ex) => match event {
                Event::Sent => ex.spec_model().1 == Some(ex.spec_expected()),
                Event::Data(d) => ex.spec_model().0 && d@ == ex.spec_expected(),
                _ => false,
            },
            _ => false,
        }
    }

    /// Create a new connection associated with the given keypair.
    ///
    /// When no peer identifier is handed in, it is derived from the
    /// keypair's public key.
    pub fn new(
        keypair: libp2p_identity::Keypair,
        peer_id: Option<libp2p_identity::PeerId>,
    ) -> (r: Connection)
        ensures
            r.spec_state() is Initialization,
            r.spec_idle(),
            peer_id matches Some(p) ==> r.spec_peer_id() == p,
    {
        let peer_id = match peer_id {
            Some(p) => p,
            None => identity::peer_id_from_public_key(&identity::public_key(&keypair)),
        };
        Connection {
            state: UpgradeState::default(),
            phase: Phase::Idle,
            keypair,
            peer_id,
        }
    }

    /// Create a new connection with a freshly generated identity.
    pub fn generate() -> (r: Connection)
        ensures
            r.spec_state() is Initialization,
            r.spec_idle(),
    {
        Connection::new(identity::generate_ed25519(), None)
    }

    /// The local peer identifier.
    pub fn peer_id(&self) -> (r: &libp2p_identity::PeerId)
        ensures
            r == self.spec_peer_id(),
    {
        &self.peer_id
    }

    /// The inner state of the handshake.
    pub fn handshake_state(&self) -> (r: &UpgradeState)
        ensures
            r == self.spec_state(),
    {
        &self.state
    }

    /// Fail the handshake: the state becomes `Failed` and the caller
    /// sees a uniform handshake-failed error.
    fn fail(&mut self) -> (r: core::result::Result<Action, PadawanError>)
        ensures
            final(self).state is Failed,
            final(self).phase is Idle,
            final(self).keypair == old(self).keypair,
            final(self).peer_id == old(self).peer_id,
            r == Err::<Action, PadawanError>(PadawanError::HandshakeFailed),
    {
        self.phase = Phase::Idle;
        self.state = UpgradeState::Failed;
        Err(PadawanError::HandshakeFailed)
    }

    /// Fail the handshake with the underlying error: the state becomes
    /// `Failed` and the error is returned as it is.
    fn fail_with(&mut self, e: PadawanError) -> (r: core::result::Result<Action, PadawanError>)
        ensures
            final(self).state is Failed,
            final(self).phase is Idle,
            final(self).keypair == old(self).keypair,
            final(self).peer_id == old(self).peer_id,
            r == Err::<Action, PadawanError>(e),
    {
        self.phase = Phase::Idle;
        self.state = UpgradeState::Failed;
        Err(e)
    }

    /// Perform one step of the handshake with the remote peer as a
    /// dialer.
    ///
    /// Consumes the driver's event and yields the next action. See the
    /// module documentation for the error policy.
    pub fn dial_step(&mut self, event: Event) -> (r: core::result::Result<Action, PadawanError>)
        ensures
            old(self).spec_state() is Established ==> final(self).spec_state() is Established,
            old(self).spec_state() is Failed ==> (final(self).spec_state() is Failed && r
                == Err::<Action, PadawanError>(PadawanError::HandshakeFailed)),
            r is Err ==> final(self).spec_state() is Failed,
            final(self).spec_state() is Failed || stage(final(self).spec_state()) >= stage(
                old(self).spec_state(),
            ),
            (r matches Ok(a) && a is Done) <==> final(self).spec_state() is Established,
            (old(self).spec_state() is Initialization && old(self).spec_idle() && event
                is Start) ==> (r matches Ok(a) && (a matches Action::Exchange { send, recv }
                && send@ == spec_encode(Protocol::Multistream) && recv == spec_encode(
                Protocol::Multistream,
            ).len())),
            old(self).spec_state() is Initialization ==> (final(self).spec_state()
                is Negotiation <==> old(self).ms_complete_agreed(event)),
            final(self).spec_state() is Noise && !(old(self).spec_state() is Noise)
                ==> old(self).neg_echo_matches(event),
            old(self).neg_echo_matches(event) && r is Ok ==> final(self).spec_state() is Noise,
            match event {
                Event::Data(_) => match old(self).mpx_round() {
                    Option::Some(p) => r is Ok ==> match final(self).spec_state() {
                        UpgradeState::Multiplex(t) => t.spec_read() == spec_encode(p),
                        _ => true,
                    },
                    Option::None => true,
                },
                _ => true,
            },
            match event {
                Event::Data(d) => (old(self).awaiting_frame_header() && d@.len() == 2
                    && wire::spec_declared_len(d@) <= wire::MAX_FRAME_SIZE && r is Ok) ==> (r
                    matches Ok(a) && a matches Action::Recv(n) && n == wire::spec_declared_len(
                    d@,
                )),
                _ => true,
            },
            final(self).spec_peer_id() == old(self).spec_peer_id(),
    {
        proof {
            use_type_invariant(&*self);
        }
        match &self.state {
            UpgradeState::Established => {
                return Ok(Action::Done);
            },
            UpgradeState::Failed => {
                return Err(PadawanError::HandshakeFailed);
            },
            _ => {},
        }
        let mut phase = Phase::Idle;
        core::mem::swap(&mut self.phase, &mut phase);
        match phase {
            Phase::Idle => match event {
                Event::Start => match &self.state {
                    UpgradeState::Initialization => self.start_exchange(),
                    _ => self.fail(),
                },
                _ => self.fail(),
            },
            Phase::MsExchange(mut ex) => match event {
                Event::Sent => {
                    ex.on_sent();
                    self.dial_after_ms(ex)
                },
                Event::Data(d) => {
                    ex.on_received(d);
                    self.dial_after_ms(ex)
                },
                _ => self.fail(),
            },
            Phase::DialNegSent => match event {
                Event::Sent => {
                    let expected = Protocol::Noise.encode();
                    self.phase = Phase::DialNegAwait;
                    Ok(Action::Recv(expected.len()))
                },
                _ => self.fail(),
            },
            Phase::DialNegAwait => match event {
                Event::Data(d) => {
                    if mirror::dial(Protocol::Noise, d.as_slice()) {
                        self.state = UpgradeState::Noise;
                        let mut hs = match NoiseHandshake::dialer() {
                            Ok(h) => h,
                            Err(e) => {
                                return self.fail_with(e);
                            },
                        };
                        let frame = match hs.hello() {
                            Ok(f) => f,
                            Err(e) => {
                                return self.fail_with(e);
                            },
                        };
                        self.phase = Phase::DialHelloSent(hs);
                        Ok(Action::Send(frame))
                    } else {
                        self.fail()
                    }
                },
                _ => self.fail(),
            },
            Phase::DialHelloSent(hs) => match event {
                Event::Sent => {
                    self.phase = Phase::DialIdHdr(hs);
                    Ok(Action::Recv(2))
                },
                _ => self.fail(),
            },
            Phase::DialIdHdr(hs) => match event {
                Event::Data(d) => match self.frame_body_len(&d) {
                    Ok(n) => {
                        self.phase = Phase::DialIdBody(hs);
                        Ok(Action::Recv(n))
                    },
                    Err(e) => self.fail_with(e),
                },
                _ => self.fail(),
            },
            Phase::DialIdBody(mut hs) => match event {
                Event::Data(d) => {
                    match hs.recv_identity(d) {
                        Ok(()) => {},
                        Err(e) => {
                            return self.fail_with(e);
                        },
                    }
                    let frame = match hs.send_identity(&self.keypair) {
                        Ok(f) => f,
                        Err(e) => {
                            return self.fail_with(e);
                        },
                    };
                    self.phase = Phase::DialIdSent(hs);
                    Ok(Action::Send(frame))
                },
                _ => self.fail(),
            },
            Phase::DialIdSent(hs) => match event {
                Event::Sent => {
                    let mut transport = match hs.into_inner().into_transport() {
                        Ok(t) => t,
                        Err(e) => {
                            return self.fail_with(e);
                        },
                    };
                    let frame = match mirror::dial_noise(&mut transport, Protocol::Multistream) {
                        Ok(f) => f,
                        Err(e) => {
                            return self.fail_with(e);
                        },
                    };
                    self.state = UpgradeState::Multiplex(Box::new(transport));
                    self.phase = Phase::DialMpxSent { yamux: false };
                    Ok(Action::Send(frame))
                },
                _ => self.fail(),
            },
            Phase::DialMpxSent { yamux } => match event {
                Event::Sent => {
                    self.phase = Phase::DialMpxHdr { yamux };
                    Ok(Action::Recv(2))
                },
                _ => self.fail(),
            },
            Phase::DialMpxHdr { yamux } => match event {
                Event::Data(d) => match self.frame_body_len(&d) {
                    Ok(n) => {
                        self.phase = Phase::DialMpxBody { yamux };
                        Ok(Action::Recv(n))
                    },
                    Err(e) => self.fail_with(e),
                },
                _ => self.fail(),
            },
            Phase::DialMpxBody { yamux } => match event {
                Event::Data(d) => {
                    let protocol = if yamux {
                        Protocol::Yamux
                    } else {
                        Protocol::Multistream
                    };
                    let mut taken = UpgradeState::Initialization;
                    core::mem::swap(&mut self.state, &mut taken);
                    let mut transport = match taken {
                        UpgradeState::Multiplex(t) => t,
                        _ => {
                            proof {
                                assert(false);
                            }
                            return Err(PadawanError::HandshakeFailed);
                        },
                    };
                    // A failing step aborts: the echo must decrypt and
                    // repeat the proposed protocol.
                    match mirror::dial_noise_check(&mut *transport, protocol, d) {
                        Ok(true) => {},
                        Ok(false) => {
                            return self.fail();
                        },
                        Err(e) => {
                            return self.fail_with(e);
                        },
                    }
                    if yamux {
                        self.state = UpgradeState::Established;
                        Ok(Action::Done)
                    } else {
                        let frame = match mirror::dial_noise(&mut *transport, Protocol::Yamux) {
                            Ok(f) => f,
                            Err(e) => {
                                return self.fail_with(e);
                            },
                        };
                        self.state = UpgradeState::Multiplex(transport);
                        self.phase = Phase::DialMpxSent { yamux: true };
                        Ok(Action::Send(frame))
                    }
                },
                _ => self.fail(),
            },
            _ => self.fail(),
        }
    }

    /// Perform one step of the handshake with the remote peer as a
    /// listener.
    ///
    /// Mirrors [`Connection::dial_step`] using the listener-oriented
    /// negotiation primitives, with no other structural difference.
    pub fn listen_step(&mut self, event: Event) -> (r: core::result::Result<
        Action,
        PadawanError,
    >)
        ensures
            old(self).spec_state() is Established ==> final(self).spec_state() is Established,
            old(self).spec_state() is Failed ==> (final(self).spec_state() is Failed && r
                == Err::<Action, PadawanError>(PadawanError::HandshakeFailed)),
            r is Err ==> final(self).spec_state() is Failed,
            final(self).spec_state() is Failed || stage(final(self).spec_state()) >= stage(
                old(self).spec_state(),
            ),
            (r matches Ok(a) && a is Done) <==> final(self).spec_state() is Established,
            (old(self).spec_state() is Initialization && old(self).spec_idle() && event
                is Start) ==> (r matches Ok(a) && (a matches Action::Exchange { send, recv }
                && send@ == spec_encode(Protocol::Multistream) && recv == spec_encode(
                Protocol::Multistream,
            ).len())),
            old(self).spec_state() is Initialization ==> (final(self).spec_state()
                is Negotiation <==> old(self).ms_complete_agreed(event)),
            match event {
                Event::Data(d) => old(self).awaiting_proposal()
                    ==> match crate::multistream_select::spec_decode(d@) {
                    Option::Some(p) => (r matches Ok(a) && a matches Action::Send(echo) && echo@
                        == spec_encode(p)),
                    Option::None => r is Err,
                },
                _ => true,
            },
            match event {
                Event::Data(d) => (old(self).awaiting_frame_header() && d@.len() == 2
                    && wire::spec_declared_len(d@) <= wire::MAX_FRAME_SIZE && r is Ok) ==> (r
                    matches Ok(a) && a matches Action::Recv(n) && n == wire::spec_declared_len(
                    d@,
                )),
                _ => true,
            },
            final(self).spec_peer_id() == old(self).spec_peer_id(),
    {
        proof {
            use_type_invariant(&*self);
        }
        match &self.state {
            UpgradeState::Established => {
                return Ok(Action::Done);
            },
            UpgradeState::Failed => {
                return Err(PadawanError::HandshakeFailed);
            },
            _ => {},
        }
        let mut phase = Phase::Idle;
        core::mem::swap(&mut self.phase, &mut phase);
        match phase {
            Phase::Idle => match event {
                Event::Start => match &self.state {
                    UpgradeState::Initialization => self.start_exchange(),
                    _ => self.fail(),
                },
                _ => self.fail(),
            },
            Phase::MsExchange(mut ex) => match event {
                Event::Sent => {
                    ex.on_sent();
                    self.listen_after_ms(ex)
                },
                Event::Data(d) => {
                    ex.on_received(d);
                    self.listen_after_ms(ex)
                },
                _ => self.fail(),
            },
            Phase::ListenNegAwait => match event {
                Event::Data(d) => {
                    let echo = match mirror::listen(d.as_slice()) {
                        Ok(echo) => echo,
                        Err(e) => {
                            return self.fail_with(e);
                        },
                    };
                    self.phase = Phase::ListenNegEcho;
                    Ok(Action::Send(echo))
                },
                _ => self.fail(),
            },
            Phase::ListenNegEcho => match event {
                Event::Sent => {
                    self.state = UpgradeState::Noise;
                    let hs = match NoiseHandshake::listener() {
                        Ok(h) => h,
                        Err(e) => {
                            return self.fail_with(e);
                        },
                    };
                    self.phase = Phase::ListenHelloHdr(hs);
                    Ok(Action::Recv(2))
                },
                _ => self.fail(),
            },
            Phase::ListenHelloHdr(hs) => match event {
                Event::Data(d) => match self.frame_body_len(&d) {
                    Ok(n) => {
                        self.phase = Phase::ListenHelloBody(hs);
                        Ok(Action::Recv(n))
                    },
                    Err(e) => self.fail_with(e),
                },
                _ => self.fail(),
            },
            Phase::ListenHelloBody(mut hs) => match event {
                Event::Data(d) => {
                    match hs.recv_hello(d) {
                        Ok(()) => {},
                        Err(e) => {
                            return self.fail_with(e);
                        },
                    }
                    let frame = match hs.send_identity(&self.keypair) {
                        Ok(f) => f,
                        Err(e) => {
                            return self.fail_with(e);
                        },
                    };
                    self.phase = Phase::ListenIdSent(hs);
                    Ok(Action::Send(frame))
                },
                _ => self.fail(),
            },
            Phase::ListenIdSent(hs) => match event {
                Event::Sent => {
                    self.phase = Phase::ListenIdHdr(hs);
                    Ok(Action::Recv(2))
                },
                _ => self.fail(),
            },
            Phase::ListenIdHdr(hs) => match event {
                Event::Data(d) => match self.frame_body_len(&d) {
                    Ok(n) => {
                        self.phase = Phase::ListenIdBody(hs);
                        Ok(Action::Recv(n))
                    },
                    Err(e) => self.fail_with(e),
                },
                _ => self.fail(),
            },
            Phase::ListenIdBody(mut hs) => match event {
                Event::Data(d) => {
                    match hs.recv_identity(d) {
                        Ok(()) => {},
                        Err(e) => {
                            return self.fail_with(e);
                        },
                    }
                    let transport = match hs.into_inner().into_transport() {
                        Ok(t) => t,
                        Err(e) => {
                            return self.fail_with(e);
                        },
                    };
                    self.state = UpgradeState::Multiplex(Box::new(transport));
                    self.phase = Phase::ListenMpxHdr { yamux: false };
                    Ok(Action::Recv(2))
                },
                _ => self.fail(),
            },
            Phase::ListenMpxHdr { yamux } => match event {
                Event::Data(d) => match self.frame_body_len(&d) {
                    Ok(n) => {
                        self.phase = Phase::ListenMpxBody { yamux };
                        Ok(Action::Recv(n))
                    },
                    Err(e) => self.fail_with(e),
                },
                _ => self.fail(),
            },
            Phase::ListenMpxBody { yamux } => match event {
                Event::Data(d) => {
                    let mut taken = UpgradeState::Initialization;
                    core::mem::swap(&mut self.state, &mut taken);
                    let mut transport = match taken {
                        UpgradeState::Multiplex(t) => t,
                        _ => {
                            proof {
                                assert(false);
                            }
                            return Err(PadawanError::HandshakeFailed);
                        },
                    };
                    let frame = match mirror::listen_noise(&mut *transport, d) {
                        Ok(f) => f,
                        Err(e) => {
                            return self.fail_with(e);
                        },
                    };
                    self.state = UpgradeState::Multiplex(transport);
                    self.phase = Phase::ListenMpxEchoSent { yamux };
                    Ok(Action::Send(frame))
                },
                _ => self.fail(),
            },
            Phase::ListenMpxEchoSent { yamux } => match event {
                Event::Sent => {
                    if yamux {
                        self.state = UpgradeState::Established;
                        Ok(Action::Done)
                    } else {
                        self.phase = Phase::ListenMpxHdr { yamux: true };
                        Ok(Action::Recv(2))
                    }
                },
                _ => self.fail(),
            },
            _ => self.fail(),
        }
    }

    /// Begin the header exchange: both roles write and read the
    /// `multistream` header concurrently.
    fn start_exchange(&mut self) -> (r: core::result::Result<Action, PadawanError>)
        requires
            old(self).state is Initialization,
            old(self).phase is Idle,
        ensures
            final(self).state == old(self).state,
            final(self).keypair == old(self).keypair,
            final(self).peer_id == old(self).peer_id,
            r matches Ok(a) && (a matches Action::Exchange { send, recv } && send@
                == spec_encode(Protocol::Multistream) && recv == spec_encode(
                Protocol::Multistream,
            ).len()),
            final(self).state is Initialization,
    {
        let ex = mirror::Concurrent::new(Protocol::Multistream);
        let send = copy_bytes(ex.to_send());
        let recv = ex.expected_len();
        self.phase = Phase::MsExchange(ex);
        Ok(Action::Exchange { send, recv })
    }

    /// Conclude or continue the header exchange in the dialer role.
    fn dial_after_ms(&mut self, ex: mirror::Concurrent) -> (r: core::result::Result<
        Action,
        PadawanError,
    >)
        requires
            old(self).state is Initialization,
            old(self).phase is Idle,
        ensures
            final(self).keypair == old(self).keypair,
            final(self).peer_id == old(self).peer_id,
            r is Err ==> final(self).state is Failed,
            final(self).state is Negotiation <==> (ex.spec_model().0 && ex.spec_model().1
                == Some(ex.spec_expected())),
            final(self).state is Initialization || final(self).state is Negotiation
                || final(self).state is Failed,
            !(final(self).state is Established),
            r matches Ok(a) ==> !(a is Done),
    {
        if !ex.done() {
            self.phase = Phase::MsExchange(ex);
            return Ok(Action::Wait);
        }
        if ex.agreed() {
            self.state = UpgradeState::Negotiation;
            let proposal = Protocol::Noise.encode();
            self.phase = Phase::DialNegSent;
            Ok(Action::Send(proposal))
        } else {
            self.fail()
        }
    }

    /// Conclude or continue the header exchange in the listener role.
    fn listen_after_ms(&mut self, ex: mirror::Concurrent) -> (r: core::result::Result<
        Action,
        PadawanError,
    >)
        requires
            old(self).state is Initialization,
            old(self).phase is Idle,
        ensures
            final(self).keypair == old(self).keypair,
            final(self).peer_id == old(self).peer_id,
            r is Err ==> final(self).state is Failed,
            final(self).state is Negotiation <==> (ex.spec_model().0 && ex.spec_model().1
                == Some(ex.spec_expected())),
            final(self).state is Initialization || final(self).state is Negotiation
                || final(self).state is Failed,
            !(final(self).state is Established),
            r matches Ok(a) ==> !(a is Done),
    {
        if !ex.done() {
            self.phase = Phase::MsExchange(ex);
            return Ok(Action::Wait);
        }
        if ex.agreed() {
            self.state = UpgradeState::Negotiation;
            let expected = Protocol::Noise.encode();
            self.phase = Phase::ListenNegAwait;
            Ok(Action::Recv(expected.len()))
        } else {
            self.fail()
        }
    }

    /// Read a received two-byte frame header, guarding against the
    /// maximum frame size.
    fn frame_body_len(&self, header: &Vec<u8>) -> (r: core::result::Result<usize, PadawanError>)
        ensures
            r matches Ok(n) ==> (header@.len() == 2 && n == wire::spec_declared_len(header@) && n
                <= wire::MAX_FRAME_SIZE),
    {
        if header.len() != 2 {
            return Err(PadawanError::InvalidNoiseFrame);
        }
        let n = wire::frame_len(header[0], header[1]);
        if n > wire::MAX_FRAME_SIZE {
            return Err(PadawanError::NoiseFrameSizeExceeded);
        }
        Ok(n)
    }
}

} // verus!
