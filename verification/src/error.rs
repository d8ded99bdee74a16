//! Library specific errors.
use vstd::prelude::*;

verus! {

/// Makes `snow::error::Error` known to the verifier, so that crypto
/// failures reported by the Noise primitive can be carried in
/// [`PadawanError`]. The value is opaque.
#[verifier::external_type_specification]
#[verifier::external_body]
pub struct ExSnowError(snow::error::Error);

/// Makes `libp2p_identity::SigningError` known to the verifier; returned
/// by the identity primitive when producing a signature fails.
#[verifier::external_type_specification]
#[verifier::external_body]
pub struct ExSigningError(libp2p_identity::SigningError);

/// Makes `libp2p_identity::DecodingError` known to the verifier; returned
/// by the identity primitive when a protobuf-encoded public key cannot be
/// decoded.
#[verifier::external_type_specification]
#[verifier::external_body]
pub struct ExDecodingError(libp2p_identity::DecodingError);

/// Variants of service-specific errors.
#[derive(Debug)]
pub enum PadawanError {
    /// The connection-upgrade negotiation failed.
    HandshakeFailed,
    /// A wire frame, or a payload to be framed, exceeds the maximum size.
    NoiseFrameSizeExceeded,
    /// A wire frame is malformed: its header is short, or its declared
    /// length does not match its body.
    InvalidNoiseFrame,
    /// The remote static Noise key is needed but not yet known.
    MissingRemoteNoiseKey,
    /// The remote peer's identity could not be verified.
    IdVerification,
    /// A `multistream_select` message has an invalid encoding.
    InvalidMultistreamEncoding,
    /// The handshake payload could not be decoded.
    DecodePayload,
    /// Producing an identity signature failed.
    SigningError(libp2p_identity::SigningError),
    /// Decoding a protobuf-encoded public key failed.
    KeyDecodeError(libp2p_identity::DecodingError),
    /// An error reported by the Noise protocol primitive.
    Snow(snow::error::Error),
}

impl PadawanError {
    /// A short human-readable description of the error.
    pub fn message(&self) -> (r: &'static str)
    {
        match self {
            PadawanError::HandshakeFailed => "handshake failed",
            PadawanError::NoiseFrameSizeExceeded => "exceeded maximum noise frame size",
            PadawanError::InvalidNoiseFrame => "malformed noise frame",
            PadawanError::MissingRemoteNoiseKey => "missing remote noise key",
            PadawanError::IdVerification => "could not verify remote peer identity",
            PadawanError::InvalidMultistreamEncoding => "invalid multistream encoding",
            PadawanError::DecodePayload => "could not decode the handshake payload",
            PadawanError::SigningError(_) => "could not sign the identity payload",
            PadawanError::KeyDecodeError(_) => "could not decode the remote public key",
            PadawanError::Snow(_) => "noise protocol error",
        }
    }
}

} // verus!
