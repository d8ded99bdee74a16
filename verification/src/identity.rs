//! Trusted declarations for the external identity primitive.
//!
//! Every item here wraps one operation of the `libp2p_identity` crate:
//! long-term keypair handling, protobuf key encoding, signing and
//! signature verification, and peer-identifier derivation. Keys,
//! signatures and identifiers are opaque to the verifier, so no
//! contract speaks of their content.
use vstd::prelude::*;

verus! {

/// Makes `libp2p_identity::Keypair` known to the verifier; opaque.
#[verifier::external_type_specification]
#[verifier::external_body]
pub struct ExKeypair(libp2p_identity::Keypair);

/// Makes `libp2p_identity::PublicKey` known to the verifier; opaque.
#[verifier::external_type_specification]
#[verifier::external_body]
pub struct ExPublicKey(libp2p_identity::PublicKey);

/// Makes `libp2p_identity::PeerId` known to the verifier; opaque.
#[verifier::external_type_specification]
#[verifier::external_body]
pub struct ExPeerId(libp2p_identity::PeerId);

/// Relies on `libp2p_identity::Keypair::generate_ed25519`: a fresh
/// random keypair, about which nothing can be promised.
#[verifier::external_body]
pub(crate) fn generate_ed25519() -> (r: libp2p_identity::Keypair) {
    libp2p_identity::Keypair::generate_ed25519()
}

/// Relies on `libp2p_identity::Keypair::public`: the public half of the
/// keypair.
#[verifier::external_body]
pub(crate) fn public_key(keypair: &libp2p_identity::Keypair) -> (r: libp2p_identity::PublicKey) {
    keypair.public()
}

/// Relies on `libp2p_identity::PublicKey::encode_protobuf`: the
/// protobuf encoding of a public key.
#[verifier::external_body]
pub(crate) fn encode_protobuf(key: &libp2p_identity::PublicKey) -> (r: Vec<u8>) {
    key.encode_protobuf()
}

/// Whether a byte string is the protobuf encoding of a public key.
///
/// Names the success of `libp2p_identity::PublicKey::try_decode_protobuf`,
/// which depends on the bytes alone.
pub uninterp spec fn key_decodes(bytes: Seq<u8>) -> bool;

/// Whether `sig` is a valid signature over `msg` by the public key
/// whose protobuf encoding is `key`.
///
/// Names the verdict of `libp2p_identity::PublicKey::verify` on the
/// decoded key, which depends on the three byte strings alone.
pub uninterp spec fn sig_verifies(key: Seq<u8>, msg: Seq<u8>, sig: Seq<u8>) -> bool;

/// Relies on `libp2p_identity::PublicKey::try_decode_protobuf`: decodes
/// a protobuf-encoded public key, failing exactly on malformed input.
#[verifier::external_body]
pub(crate) fn try_decode_protobuf(bytes: &[u8]) -> (r: core::result::Result<
    libp2p_identity::PublicKey,
    libp2p_identity::DecodingError,
>)
    ensures
        r is Ok <==> key_decodes(bytes@),
{
    libp2p_identity::PublicKey::try_decode_protobuf(bytes)
}

/// Relies on `libp2p_identity::PublicKey::try_decode_protobuf` and
/// `libp2p_identity::PublicKey::verify`: decodes the key bytes and
/// checks the signature over the message. Both verdicts are
/// deterministic functions of the byte strings, named above.
#[verifier::external_body]
pub(crate) fn decode_and_verify(key_bytes: &[u8], msg: &[u8], sig: &[u8]) -> (r:
    core::result::Result<bool, libp2p_identity::DecodingError>)
    ensures
        r is Ok <==> key_decodes(key_bytes@),
        r matches Ok(b) ==> b == sig_verifies(key_bytes@, msg@, sig@),
{
    match libp2p_identity::PublicKey::try_decode_protobuf(key_bytes) {
        Ok(key) => Ok(key.verify(msg, sig)),
        Err(e) => Err(e),
    }
}

/// Relies on `libp2p_identity::Keypair::sign`: a signature over `msg`
/// by the keypair's secret key.
#[verifier::external_body]
pub(crate) fn sign(keypair: &libp2p_identity::Keypair, msg: &[u8]) -> (r: core::result::Result<
    Vec<u8>,
    libp2p_identity::SigningError,
>) {
    keypair.sign(msg)
}

/// Relies on `libp2p_identity::PeerId::from_public_key`: the peer
/// identifier derived from a public key.
#[verifier::external_body]
pub(crate) fn peer_id_from_public_key(key: &libp2p_identity::PublicKey) -> (r: libp2p_identity::PeerId) {
    libp2p_identity::PeerId::from_public_key(key)
}

} // verus!
