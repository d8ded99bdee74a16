//! Negotiation exchanges where the listener is expected to send the
//! same data as the ones received from the dialer.
//!
//! Each algorithm is free of I/O: it computes the bytes to put on the
//! wire and judges the bytes that came back; a driver moves them.
use vstd::prelude::*;

use crate::error::PadawanError;
use crate::multistream_select::{bytes_eq, spec_decode, spec_encode, Protocol};
use crate::noise::wire;
use crate::noise::Transport;

verus! {

/// What has happened so far in a concurrent exchange: whether our
/// message went out, and what came back, if anything.
pub type ConcurrentModel = (bool, Option<Seq<u8>>);

/// One completion event of a concurrent exchange.
pub enum ConcurrentEvent {
    /// Our own write completed.
    Sent,
    /// The peer's message arrived.
    Received { data: Seq<u8> },
}

/// The effect of one completion event on a concurrent exchange.
pub open spec fn concurrent_step(m: ConcurrentModel, ev: ConcurrentEvent) -> ConcurrentModel {
    match ev {
        ConcurrentEvent::Sent => (true, m.1),
        ConcurrentEvent::Received { data } => (m.0, Some(data)),
    }
}

/// A read and a write of the same encoded protocol, in flight at the
/// same time on one connection.
///
/// Useful in cases where the peers may send data immediately after
/// connection, for example when sending the `/multistream/1.0.0`
/// headers: each side writes its header and reads the peer's, whichever
/// completes first, and the exchange agrees when the received bytes
/// equal the expected encoding.
pub struct Concurrent {
    expected: Vec<u8>,
    sent: bool,
    response: Option<Vec<u8>>,
}

impl Concurrent {
    /// The encoding both sides are expected to send.
    pub closed spec fn spec_expected(&self) -> Seq<u8> {
        self.expected@
    }

    /// The exchange so far: writes done, bytes received.
    pub closed spec fn spec_model(&self) -> ConcurrentModel {
        (self.sent, match self.response {
            Option::Some(ref v) => Some(v@),
            Option::None => None,
        })
    }

    /// Start an exchange of the given protocol's encoding.
    pub fn new(protocol: Protocol) -> (r: Self)
        ensures
            r.spec_expected() == spec_encode(protocol),
            r.spec_model() == (false, Option::<Seq<u8>>::None),
    {
        Concurrent { expected: protocol.encode(), sent: false, response: None }
    }

    /// The bytes this side must write.
    pub fn to_send(&self) -> (r: &Vec<u8>)
        ensures
            r@ == self.spec_expected(),
    {
        &self.expected
    }

    /// How many bytes this side must read.
    pub fn expected_len(&self) -> (r: usize)
        ensures
            r == self.spec_expected().len(),
    {
        self.expected.len()
    }

    /// Record that our write completed.
    pub fn on_sent(&mut self)
        ensures
            final(self).spec_expected() == old(self).spec_expected(),
            final(self).spec_model() == concurrent_step(
                old(self).spec_model(),
                ConcurrentEvent::Sent,
            ),
    {
        self.sent = true;
    }

    /// Record the bytes the peer sent.
    pub fn on_received(&mut self, data: Vec<u8>)
        ensures
            final(self).spec_expected() == old(self).spec_expected(),
            final(self).spec_model() == concurrent_step(
                old(self).spec_model(),
                (ConcurrentEvent::Received { data: data@ }),
            ),
    {
        self.response = Some(data);
    }

    /// Whether both completions have happened.
    pub fn done(&self) -> (r: bool)
        ensures
            r == (self.spec_model().0 && self.spec_model().1 is Some),
    {
        self.sent && self.response.is_some()
    }

    /// Whether the protocols match: the received bytes equal the
    /// expected encoding. Nothing received counts as no match.
    pub fn agreed(&self) -> (r: bool)
        ensures
            r == (self.spec_model().1 == Some(self.spec_expected())),
    {
        match &self.response {
            Some(data) => bytes_eq(data.as_slice(), self.expected.as_slice()),
            None => false,
        }
    }
}

/// A concurrent exchange converges to the same state — and therefore
/// the same agreement verdict — whichever of the two completions comes
/// first.
pub proof fn lemma_concurrent_order(m: ConcurrentModel, data: Seq<u8>)
    ensures
        concurrent_step(
            concurrent_step(m, ConcurrentEvent::Sent),
            (ConcurrentEvent::Received { data }),
        ) == concurrent_step(
            concurrent_step(m, (ConcurrentEvent::Received { data })),
            ConcurrentEvent::Sent,
        ),
{
}

/// Judge the peer's response after this side wrote first: the exchange
/// succeeds when the response repeats the encoded protocol.
pub fn dial(protocol: Protocol, response: &[u8]) -> (r: bool)
    ensures
        r == (response@ == spec_encode(protocol)),
{
    let encoded = protocol.encode();
    bytes_eq(response, encoded.as_slice())
}

/// Answer an incoming proposal: decode it, then re-encode whatever was
/// decoded — affirming known protocols and mirroring unknown ones with
/// `na`, a deliberate simplification of full `multistream_select`
/// semantics.
///
/// Fails exactly when the incoming bytes have an invalid encoding.
pub fn listen(incoming: &[u8]) -> (r: core::result::Result<Vec<u8>, PadawanError>)
    ensures
        match spec_decode(incoming@) {
            Option::Some(p) => r matches Ok(echo) && echo@ == spec_encode(p),
            Option::None => r == Err::<Vec<u8>, PadawanError>(
                PadawanError::InvalidMultistreamEncoding,
            ),
        },
{
    let decoded = match Protocol::decode(incoming) {
        Ok(p) => p,
        Err(e) => {
            return Err(e);
        },
    };
    Ok(decoded.encode())
}

/// Like [`dial`], but for use during noise transport: the wire frame
/// that proposes `protocol` inside the encrypted channel.
///
/// The encoded name is small, so the ciphertext always fits in a
/// frame: only the crypto primitive can fail.
pub fn dial_noise(transport: &mut Transport, protocol: Protocol) -> (r: core::result::Result<
    Vec<u8>,
    PadawanError,
>)
    ensures
        final(transport).spec_write() == spec_encode(protocol),
        final(transport).spec_read() == old(transport).spec_read(),
        r matches Ok(f) ==> f@ == wire::spec_frame(final(transport).spec_encrypted()),
        r matches Err(e) ==> e matches PadawanError::Snow(_),
{
    let encoded = protocol.encode();
    proof {
        crate::multistream_select::lemma_encode_len(protocol);
    }
    transport.set_write(encoded);
    let ciphertext = match transport.encrypt() {
        Ok(c) => c,
        Err(e) => {
            return Err(e);
        },
    };
    wire::send(ciphertext.as_slice())
}

/// Judge the peer's encrypted response to [`dial_noise`]: decrypt the
/// received frame payload and compare it with the encoded protocol.
pub fn dial_noise_check(
    transport: &mut Transport,
    protocol: Protocol,
    message: Vec<u8>,
) -> (r: core::result::Result<bool, PadawanError>)
    ensures
        r matches Ok(b) ==> b == (final(transport).spec_read() == spec_encode(protocol)),
        r matches Err(e) ==> e matches PadawanError::Snow(_),
{
    transport.set_encrypted(message);
    let plaintext = match transport.decrypt() {
        Ok(p) => p,
        Err(e) => {
            return Err(e);
        },
    };
    let encoded = protocol.encode();
    Ok(bytes_eq(plaintext.as_slice(), encoded.as_slice()))
}

/// Like [`listen`], but for use during noise transport: decrypt the
/// received frame payload, decode the proposal, and produce the wire
/// frame of the encrypted echo.
pub fn listen_noise(transport: &mut Transport, message: Vec<u8>) -> (r: core::result::Result<
    Vec<u8>,
    PadawanError,
>)
    ensures
        r is Ok ==> (spec_decode(final(transport).spec_read()) matches Some(p)
            && final(transport).spec_write() == spec_encode(p)),
        r matches Ok(f) ==> f@ == wire::spec_frame(final(transport).spec_encrypted()),
        r matches Err(e) ==> (e matches PadawanError::Snow(_) || e
            matches PadawanError::InvalidMultistreamEncoding),
{
    transport.set_encrypted(message);
    let plaintext = match transport.decrypt() {
        Ok(p) => p,
        Err(e) => {
            return Err(e);
        },
    };
    let echo = match listen(plaintext.as_slice()) {
        Ok(echo) => echo,
        Err(e) => {
            return Err(e);
        },
    };
    proof {
        match spec_decode(plaintext@) {
            Option::Some(p) => crate::multistream_select::lemma_encode_len(p),
            Option::None => (),
        }
    }
    transport.set_write(echo);
    let ciphertext = match transport.encrypt() {
        Ok(c) => c,
        Err(e) => {
            return Err(e);
        },
    };
    wire::send(ciphertext.as_slice())
}

} // verus!
