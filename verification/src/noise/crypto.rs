//! Trusted declarations for the external Noise protocol primitive.
//!
//! Every item here wraps one operation of the `snow` crate. The
//! contracts state only what the crate's sources show of every outcome:
//! in particular, nothing is promised about the content of keys or
//! ciphertexts, only about buffer bounds.
use vstd::prelude::*;

verus! {

/// Makes `snow::HandshakeState` known to the verifier. The value is
/// opaque: all operations on it go through the wrappers below.
#[verifier::external_type_specification]
#[verifier::external_body]
pub struct ExHandshakeState(snow::HandshakeState);

/// Makes `snow::TransportState` known to the verifier; opaque.
#[verifier::external_type_specification]
#[verifier::external_body]
pub struct ExTransportState(snow::TransportState);

/// Makes `snow::Keypair` known to the verifier; opaque.
#[verifier::external_type_specification]
#[verifier::external_body]
pub struct ExKeypair(snow::Keypair);

/// Relies on `snow::Builder`: parses the pattern, generates a fresh
/// static keypair, and builds the handshake state for the requested
/// role. The keypair and all key material are opaque.
#[verifier::external_body]
pub(crate) fn build_state(pattern: &str, initiator: bool) -> (r: core::result::Result<
    (snow::HandshakeState, snow::Keypair),
    snow::error::Error,
>) {
    let builder = snow::Builder::new(pattern.parse()?);
    let keypair = builder.generate_keypair()?;
    let builder = builder.local_private_key(&keypair.private);
    if initiator {
        Ok((builder.build_initiator()?, keypair))
    } else {
        Ok((builder.build_responder()?, keypair))
    }
}

/// Relies on `snow::HandshakeState::into_transport_mode`: succeeds only
/// once all handshake messages have been exchanged.
#[verifier::external_body]
pub(crate) fn into_transport_state(state: snow::HandshakeState) -> (r: core::result::Result<
    snow::TransportState,
    snow::error::Error,
>) {
    state.into_transport_mode()
}

/// Relies on `snow::HandshakeState::get_remote_static`: the remote
/// static key once learned, absent before that.
#[verifier::external_body]
pub(crate) fn handshake_remote_static(state: &snow::HandshakeState) -> (r: Option<Vec<u8>>) {
    state.get_remote_static().map(|k| k.to_vec())
}

/// Relies on `snow::TransportState::get_remote_static`, as above.
#[verifier::external_body]
pub(crate) fn transport_remote_static(state: &snow::TransportState) -> (r: Option<Vec<u8>>) {
    state.get_remote_static().map(|k| k.to_vec())
}

/// Relies on `snow::HandshakeState::read_message`: on success the
/// number of payload bytes written never exceeds the buffer, whose
/// length it cannot change.
#[verifier::external_body]
pub(crate) fn handshake_read(
    state: &mut snow::HandshakeState,
    message: &[u8],
    payload: &mut Vec<u8>,
) -> (r: core::result::Result<usize, snow::error::Error>)
    ensures
        final(payload)@.len() == old(payload)@.len(),
        r matches Ok(n) ==> n <= old(payload)@.len(),
{
    state.read_message(message, payload.as_mut_slice())
}

/// Relies on `snow::HandshakeState::write_message`: on success the
/// number of message bytes written never exceeds the buffer, whose
/// length it cannot change. The buffer must leave the full inflation
/// headroom above the payload: with less, the write of an encrypted
/// token's authentication tag can step past a buffer that passed the
/// key-length check, and the primitive aborts instead of returning.
#[verifier::external_body]
pub(crate) fn handshake_write(
    state: &mut snow::HandshakeState,
    payload: &[u8],
    message: &mut Vec<u8>,
) -> (r: core::result::Result<usize, snow::error::Error>)
    requires
        old(message)@.len() >= payload@.len() + crate::noise::ENCRYPTION_INFLATION_SIZE,
    ensures
        final(message)@.len() == old(message)@.len(),
        r matches Ok(n) ==> n <= old(message)@.len(),
{
    state.write_message(payload, message.as_mut_slice())
}

/// Relies on `snow::TransportState::read_message`, with the same bounds
/// as the handshake-phase read.
#[verifier::external_body]
pub(crate) fn transport_read(
    state: &mut snow::TransportState,
    message: &[u8],
    payload: &mut Vec<u8>,
) -> (r: core::result::Result<usize, snow::error::Error>)
    ensures
        final(payload)@.len() == old(payload)@.len(),
        r matches Ok(n) ==> n <= old(payload)@.len(),
{
    state.read_message(message, payload.as_mut_slice())
}

/// Relies on `snow::TransportState::write_message`, with the same
/// bounds as the handshake-phase write.
#[verifier::external_body]
pub(crate) fn transport_write(
    state: &mut snow::TransportState,
    payload: &[u8],
    message: &mut Vec<u8>,
) -> (r: core::result::Result<usize, snow::error::Error>)
    ensures
        final(message)@.len() == old(message)@.len(),
        r matches Ok(n) ==> n <= old(message)@.len(),
{
    state.write_message(payload, message.as_mut_slice())
}

/// Relies on the public `public` field of `snow::Keypair`: the local
/// static public key.
#[verifier::external_body]
pub(crate) fn keypair_public(keypair: &snow::Keypair) -> (r: Vec<u8>) {
    keypair.public.clone()
}

} // verus!
