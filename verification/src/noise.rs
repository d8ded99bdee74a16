//! The Noise handshake engine: buffers and stateful encryption built on
//! the external Noise protocol primitive.
use vstd::prelude::*;

use crate::error::PadawanError;

pub(crate) mod crypto;
pub mod libp2p;
pub mod wire;

verus! {

/// Reserved space for the size increase caused by encryption.
pub const ENCRYPTION_INFLATION_SIZE: usize = 1024;

/// The supported noise handshake pattern.
pub const PATTERN: &'static str = "Noise_XX_25519_ChaChaPoly_SHA256";

/// Encapsulate buffers for read, write, and encrypted data.
pub struct Buffer {
    read: Vec<u8>,
    write: Vec<u8>,
    encrypted: Vec<u8>,
}

impl Buffer {
    /// The contents of the plaintext-read buffer.
    pub closed spec fn spec_read(&self) -> Seq<u8> {
        self.read@
    }

    /// The contents of the plaintext-write buffer.
    pub closed spec fn spec_write(&self) -> Seq<u8> {
        self.write@
    }

    /// The contents of the ciphertext buffer.
    pub closed spec fn spec_encrypted(&self) -> Seq<u8> {
        self.encrypted@
    }

    /// An empty buffer set.
    pub fn new() -> (r: Buffer)
        ensures
            r.spec_read() == Seq::<u8>::empty(),
            r.spec_write() == Seq::<u8>::empty(),
            r.spec_encrypted() == Seq::<u8>::empty(),
    {
        Buffer { read: Vec::new(), write: Vec::new(), encrypted: Vec::new() }
    }

    /// The plaintext most recently decrypted.
    pub fn read(&self) -> (r: &Vec<u8>)
        ensures
            r@ == self.spec_read(),
    {
        &self.read
    }

    /// The plaintext queued for encryption.
    pub fn write(&self) -> (r: &Vec<u8>)
        ensures
            r@ == self.spec_write(),
    {
        &self.write
    }

    /// The ciphertext most recently produced or received.
    pub fn encrypted(&self) -> (r: &Vec<u8>)
        ensures
            r@ == self.spec_encrypted(),
    {
        &self.encrypted
    }

    /// Replace the plaintext queued for encryption.
    pub fn set_write(&mut self, data: Vec<u8>)
        ensures
            final(self).spec_write() == data@,
            final(self).spec_read() == old(self).spec_read(),
            final(self).spec_encrypted() == old(self).spec_encrypted(),
    {
        self.write = data;
    }

    /// Replace the received ciphertext.
    pub fn set_encrypted(&mut self, data: Vec<u8>)
        ensures
            final(self).spec_encrypted() == data@,
            final(self).spec_read() == old(self).spec_read(),
            final(self).spec_write() == old(self).spec_write(),
    {
        self.encrypted = data;
    }
}

/// Copy a byte vector.
pub fn copy_bytes(src: &Vec<u8>) -> (r: Vec<u8>)
    ensures
        r@ == src@,
{
    let mut out: Vec<u8> = Vec::new();
    let mut i: usize = 0;
    while i < src.len()
        invariant
            i <= src@.len(),
            out@ == src@.subrange(0, i as int),
        decreases src@.len() - i,
    {
        out.push(src[i]);
        proof {
            assert(out@ =~= src@.subrange(0, i + 1));
        }
        i = i + 1;
    }
    proof {
        assert(out@ =~= src@);
    }
    out
}

/// Append a byte slice to a vector.
pub fn append_bytes(out: &mut Vec<u8>, src: &[u8])
    ensures
        final(out)@ == old(out)@ + src@,
{
    let mut i: usize = 0;
    proof {
        assert(old(out)@ + src@.subrange(0, 0) =~= old(out)@);
    }
    while i < src.len()
        invariant
            i <= src@.len(),
            out@ == old(out)@ + src@.subrange(0, i as int),
        decreases src@.len() - i,
    {
        out.push(src[i]);
        proof {
            assert(out@ =~= old(out)@ + src@.subrange(0, i + 1));
        }
        i = i + 1;
    }
    proof {
        assert(src@.subrange(0, src@.len() as int) =~= src@);
    }
}

/// Common behaviour of the two phases of the Noise primitive's state:
/// the handshake phase and the transport phase.
pub trait NoiseState: Sized {
    /// The remote peer static public key, once learned.
    fn remote_static(&self) -> Option<Vec<u8>>;

    /// Decrypt a message into the given `plaintext` buffer.
    ///
    /// Returns the number of bytes decrypted; the buffer keeps its
    /// length, and the count never exceeds it.
    fn decrypt(&mut self, encrypted: &[u8], plaintext: &mut Vec<u8>) -> (r: core::result::Result<
        usize,
        snow::error::Error,
    >)
        ensures
            final(plaintext)@.len() == old(plaintext)@.len(),
            r matches Ok(n) ==> n <= old(plaintext)@.len(),
    ;

    /// Encrypt a message into the given `encrypted` buffer, which must
    /// leave the full inflation headroom above the plaintext.
    ///
    /// Returns the number of bytes written; the buffer keeps its
    /// length, and the count never exceeds it.
    fn encrypt(&mut self, plaintext: &[u8], encrypted: &mut Vec<u8>) -> (r: core::result::Result<
        usize,
        snow::error::Error,
    >)
        requires
            old(encrypted)@.len() >= plaintext@.len() + ENCRYPTION_INFLATION_SIZE,
        ensures
            final(encrypted)@.len() == old(encrypted)@.len(),
            r matches Ok(n) ==> n <= old(encrypted)@.len(),
    ;
}

impl NoiseState for snow::HandshakeState {
    fn remote_static(&self) -> Option<Vec<u8>> {
        crypto::handshake_remote_static(self)
    }

    fn decrypt(&mut self, encrypted: &[u8], plaintext: &mut Vec<u8>) -> (r: core::result::Result<
        usize,
        snow::error::Error,
    >) {
        crypto::handshake_read(self, encrypted, plaintext)
    }

    fn encrypt(&mut self, plaintext: &[u8], encrypted: &mut Vec<u8>) -> (r: core::result::Result<
        usize,
        snow::error::Error,
    >) {
        crypto::handshake_write(self, plaintext, encrypted)
    }
}

impl NoiseState for snow::TransportState {
    fn remote_static(&self) -> Option<Vec<u8>> {
        crypto::transport_remote_static(self)
    }

    fn decrypt(&mut self, encrypted: &[u8], plaintext: &mut Vec<u8>) -> (r: core::result::Result<
        usize,
        snow::error::Error,
    >) {
        crypto::transport_read(self, encrypted, plaintext)
    }

    fn encrypt(&mut self, plaintext: &[u8], encrypted: &mut Vec<u8>) -> (r: core::result::Result<
        usize,
        snow::error::Error,
    >) {
        crypto::transport_write(self, plaintext, encrypted)
    }
}

/// Handle encryption/decryption of data based on the state of the noise
/// protocol.
pub struct StatefulBuf<T: NoiseState> {
    state: T,
    buffer: Buffer,
    keypair: snow::Keypair,
}

/// The stateful buffer to be used in the handshake phase.
pub type Handshake = StatefulBuf<snow::HandshakeState>;

/// The stateful buffer to be used in the transport phase.
pub type Transport = StatefulBuf<snow::TransportState>;

impl<T: NoiseState> StatefulBuf<T> {
    /// The contents of the plaintext-read buffer.
    pub closed spec fn spec_read(&self) -> Seq<u8> {
        self.buffer.spec_read()
    }

    /// The contents of the plaintext-write buffer.
    pub closed spec fn spec_write(&self) -> Seq<u8> {
        self.buffer.spec_write()
    }

    /// The contents of the ciphertext buffer.
    pub closed spec fn spec_encrypted(&self) -> Seq<u8> {
        self.buffer.spec_encrypted()
    }

    /// Get the remote static noise key.
    pub fn remote_static(&self) -> Option<Vec<u8>> {
        self.state.remote_static()
    }

    /// Get the local static noise key.
    pub fn local_static(&self) -> Vec<u8> {
        crypto::keypair_public(&self.keypair)
    }

    /// Get the internal buffer.
    pub fn buffer(&self) -> (r: &Buffer)
        ensures
            r.spec_read() == self.spec_read(),
            r.spec_write() == self.spec_write(),
            r.spec_encrypted() == self.spec_encrypted(),
    {
        &self.buffer
    }

    /// Replace the plaintext queued for encryption.
    pub fn set_write(&mut self, data: Vec<u8>)
        ensures
            final(self).spec_write() == data@,
            final(self).spec_read() == old(self).spec_read(),
            final(self).spec_encrypted() == old(self).spec_encrypted(),
    {
        self.buffer.set_write(data);
    }

    /// Replace the received ciphertext.
    pub fn set_encrypted(&mut self, data: Vec<u8>)
        ensures
            final(self).spec_encrypted() == data@,
            final(self).spec_read() == old(self).spec_read(),
            final(self).spec_write() == old(self).spec_write(),
    {
        self.buffer.set_encrypted(data);
    }

    /// Decrypt encrypted data from the internal buffer.
    ///
    /// Returns the decrypted data, which also replaces the read buffer.
    /// Its length never exceeds the ciphertext's.
    pub fn decrypt(&mut self) -> (r: core::result::Result<Vec<u8>, PadawanError>)
        ensures
            r matches Ok(v) ==> v@ == final(self).spec_read() && v@.len() <= old(
                self,
            ).spec_encrypted().len(),
            r matches Err(e) ==> e matches PadawanError::Snow(_),
            final(self).spec_write() == old(self).spec_write(),
            final(self).spec_encrypted() == old(self).spec_encrypted(),
    {
        let n_encrypted = self.buffer.encrypted.len();
        let mut out: Vec<u8> = Vec::new();
        out.resize(n_encrypted, 0u8);
        match self.state.decrypt(self.buffer.encrypted.as_slice(), &mut out) {
            Ok(n) => {
                out.truncate(n);
                self.buffer.read = copy_bytes(&out);
                Ok(out)
            },
            Err(e) => Err(PadawanError::Snow(e)),
        }
    }

    /// Encrypt the data of the internal write buffer.
    ///
    /// Returns the ciphertext, which also replaces the encrypted
    /// buffer. Its length never exceeds the plaintext's plus
    /// [`ENCRYPTION_INFLATION_SIZE`].
    pub fn encrypt(&mut self) -> (r: core::result::Result<Vec<u8>, PadawanError>)
        requires
            old(self).spec_write().len() + ENCRYPTION_INFLATION_SIZE <= usize::MAX,
        ensures
            r matches Ok(v) ==> v@ == final(self).spec_encrypted() && v@.len() <= old(
                self,
            ).spec_write().len() + ENCRYPTION_INFLATION_SIZE,
            r matches Err(e) ==> e matches PadawanError::Snow(_),
            final(self).spec_write() == old(self).spec_write(),
            final(self).spec_read() == old(self).spec_read(),
    {
        let n_write = self.buffer.write.len();
        let mut out: Vec<u8> = Vec::new();
        out.resize(n_write + ENCRYPTION_INFLATION_SIZE, 0u8);
        match self.state.encrypt(self.buffer.write.as_slice(), &mut out) {
            Ok(n) => {
                out.truncate(n);
                self.buffer.encrypted = copy_bytes(&out);
                Ok(out)
            },
            Err(e) => Err(PadawanError::Snow(e)),
        }
    }
}

impl StatefulBuf<snow::HandshakeState> {
    /// Build a handshake for the side that will send the first message.
    pub fn build_initiator() -> (r: core::result::Result<Self, PadawanError>)
        ensures
            r matches Ok(h) ==> h.spec_read().len() == 0 && h.spec_write().len() == 0
                && h.spec_encrypted().len() == 0,
            r matches Err(e) ==> e matches PadawanError::Snow(_),
    {
        match crypto::build_state(PATTERN, true) {
            Ok((state, keypair)) => Ok(StatefulBuf { state, buffer: Buffer::new(), keypair }),
            Err(e) => Err(PadawanError::Snow(e)),
        }
    }

    /// Build a handshake for the side that answers the first message.
    pub fn build_responder() -> (r: core::result::Result<Self, PadawanError>)
        ensures
            r matches Ok(h) ==> h.spec_read().len() == 0 && h.spec_write().len() == 0
                && h.spec_encrypted().len() == 0,
            r matches Err(e) ==> e matches PadawanError::Snow(_),
    {
        match crypto::build_state(PATTERN, false) {
            Ok((state, keypair)) => Ok(StatefulBuf { state, buffer: Buffer::new(), keypair }),
            Err(e) => Err(PadawanError::Snow(e)),
        }
    }

    /// Convert the handshake-phase state into the transport-phase
    /// state, carrying the buffers and the local keypair over.
    ///
    /// Valid only once all three handshake messages have been
    /// exchanged; before that the primitive reports an error.
    pub fn into_transport(self) -> (r: core::result::Result<Transport, PadawanError>)
        ensures
            r matches Ok(t) ==> t.spec_read() == self.spec_read() && t.spec_write()
                == self.spec_write() && t.spec_encrypted() == self.spec_encrypted(),
            r matches Err(e) ==> e matches PadawanError::Snow(_),
    {
        match crypto::into_transport_state(self.state) {
            Ok(state) => Ok(StatefulBuf { state, buffer: self.buffer, keypair: self.keypair }),
            Err(e) => Err(PadawanError::Snow(e)),
        }
    }
}

} // verus!
