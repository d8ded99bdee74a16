//! Logic and types for the `libp2p` flavour of the noise protocol: the
//! handshake payload that binds a Noise static key to a long-term
//! identity key, and the three-message exchange that carries it.
use vstd::prelude::*;

use crate::error::PadawanError;
use crate::identity;
use crate::noise::wire;
use crate::noise::{append_bytes, Handshake, ENCRYPTION_INFLATION_SIZE};
use crate::varint;

verus! {

/// The protobuf field tag of `identity_key` (field 1, length-delimited).
pub const KEY_TAG: u8 = 10;

/// The protobuf field tag of `identity_sig` (field 2, length-delimited).
pub const SIG_TAG: u8 = 18;

/// The protobuf field tag of `extensions` (field 3, length-delimited).
pub const EXTENSIONS_TAG: u8 = 26;

/// The contents of an optional byte field.
pub open spec fn opt_view(o: Option<Vec<u8>>) -> Option<Seq<u8>> {
    match o {
        Option::Some(v) => Some(v@),
        Option::None => None,
    }
}

/// The three optional byte fields of a handshake payload, as the
/// mathematical model that the codec contracts speak of.
pub type PayloadModel = (Option<Seq<u8>>, Option<Seq<u8>>, Option<Seq<u8>>);

/// The declared public key bytes of a payload model: the first field,
/// or empty when absent.
pub open spec fn model_key_bytes(m: PayloadModel) -> Seq<u8> {
    match m.0 {
        Option::Some(k) => k,
        Option::None => Seq::empty(),
    }
}

/// The encoding of one optional length-delimited field: nothing when
/// absent, else its tag, a varint length, and the data.
pub open spec fn spec_field(tag: u8, data: Option<Seq<u8>>) -> Seq<u8> {
    match data {
        Option::None => Seq::empty(),
        Option::Some(d) => seq![tag] + varint::varint_encoding(d.len()) + d,
    }
}

/// The encoding of a handshake payload: its present fields in field
/// order.
pub open spec fn spec_payload_encode(m: PayloadModel) -> Seq<u8> {
    spec_field(KEY_TAG, m.0) + spec_field(SIG_TAG, m.1) + spec_field(EXTENSIONS_TAG, m.2)
}

/// Parse a sequence of length-delimited protobuf fields into the three
/// payload fields, starting from the fields in `acc`. A later
/// occurrence of a field overrides an earlier one; unknown
/// length-delimited fields are skipped; any other wire type fails.
pub open spec fn spec_payload_parse(s: Seq<u8>, acc: PayloadModel) -> Option<PayloadModel>
    decreases s.len(),
{
    if s.len() == 0 {
        Some(acc)
    } else if s[0] % 8 != 2 {
        None
    } else {
        match varint::varint_parse(s.skip(1)) {
            Option::None => None,
            Option::Some((len, used)) => {
                if 1 + used + len <= s.len() {
                    let data = s.subrange(1 + used as int, 1 + used as int + len as int);
                    let rest = s.skip(1 + used as int + len as int);
                    let acc2 = if s[0] == KEY_TAG {
                        (Some(data), acc.1, acc.2)
                    } else if s[0] == SIG_TAG {
                        (acc.0, Some(data), acc.2)
                    } else if s[0] == EXTENSIONS_TAG {
                        (acc.0, acc.1, Some(data))
                    } else {
                        acc
                    };
                    spec_payload_parse(rest, acc2)
                } else {
                    None
                }
            },
        }
    }
}

/// The fields after one encoded field has been consumed.
pub open spec fn field_apply(tag: u8, data: Option<Seq<u8>>, acc: PayloadModel) -> PayloadModel {
    match data {
        Option::None => acc,
        Option::Some(d) => {
            if tag == KEY_TAG {
                (Some(d), acc.1, acc.2)
            } else if tag == SIG_TAG {
                (acc.0, Some(d), acc.2)
            } else if tag == EXTENSIONS_TAG {
                (acc.0, acc.1, Some(d))
            } else {
                acc
            }
        },
    }
}

/// Consuming one encoded field from the head of the input stores its
/// contents and leaves the rest to parse.
proof fn lemma_parse_field(tag: u8, data: Option<Seq<u8>>, rest: Seq<u8>, acc: PayloadModel)
    requires
        tag % 8 == 2,
    ensures
        spec_payload_parse(spec_field(tag, data) + rest, acc) == spec_payload_parse(
            rest,
            field_apply(tag, data, acc),
        ),
{
    match data {
        Option::None => {
            assert(spec_field(tag, data) + rest =~= rest);
        },
        Option::Some(d) => {
            let s = spec_field(tag, data) + rest;
            assert(s[0] == tag);
            assert(s.skip(1) =~= varint::varint_encoding(d.len()) + (d + rest));
            varint::lemma_varint_roundtrip(d.len(), d + rest);
            let used = varint::varint_encoding(d.len()).len();
            assert(s.subrange(1 + used as int, 1 + used as int + d.len() as int) =~= d);
            assert(s.skip(1 + used as int + d.len() as int) =~= rest);
        },
    }
}

/// The payload codec round-trips: parsing the encoding of any field
/// set reproduces it exactly.
pub proof fn lemma_payload_roundtrip(m: PayloadModel)
    ensures
        spec_payload_parse(spec_payload_encode(m), (None, None, None)) == Some(m),
{
    let key = spec_field(KEY_TAG, m.0);
    let sig = spec_field(SIG_TAG, m.1);
    let ext = spec_field(EXTENSIONS_TAG, m.2);
    assert(spec_payload_encode(m) =~= key + (sig + (ext + Seq::<u8>::empty())));
    let acc0: PayloadModel = (None, None, None);
    lemma_parse_field(KEY_TAG, m.0, sig + (ext + Seq::<u8>::empty()), acc0);
    let acc1 = field_apply(KEY_TAG, m.0, acc0);
    lemma_parse_field(SIG_TAG, m.1, ext + Seq::<u8>::empty(), acc1);
    let acc2 = field_apply(SIG_TAG, m.1, acc1);
    lemma_parse_field(EXTENSIONS_TAG, m.2, Seq::<u8>::empty(), acc2);
    let acc3 = field_apply(EXTENSIONS_TAG, m.2, acc2);
    assert(spec_payload_parse(Seq::<u8>::empty(), acc3) == Some(acc3));
    assert(acc3 == m);
}

/// The handshake payload exchanged inside the Noise messages: the
/// long-term public identity key, a signature binding the Noise static
/// key to it, and optional extensions.
pub struct NoiseHandshakePayload {
    pub identity_key: Option<Vec<u8>>,
    pub identity_sig: Option<Vec<u8>>,
    pub extensions: Option<Vec<u8>>,
}

impl NoiseHandshakePayload {
    /// The model of this payload: the contents of its three fields.
    pub open spec fn spec_model(&self) -> PayloadModel {
        (opt_view(self.identity_key), opt_view(self.identity_sig), opt_view(self.extensions))
    }

    /// The declared public key bytes: the `identity_key` field, or
    /// empty when absent.
    pub open spec fn spec_key_bytes(&self) -> Seq<u8> {
        match self.identity_key {
            Option::Some(ref k) => k@,
            Option::None => Seq::empty(),
        }
    }

    /// The declared signature bytes, or empty when absent.
    pub open spec fn spec_sig_bytes(&self) -> Seq<u8> {
        match self.identity_sig {
            Option::Some(ref s) => s@,
            Option::None => Seq::empty(),
        }
    }

    /// Encode the payload as protobuf.
    pub fn encode(&self) -> (r: Vec<u8>)
        ensures
            r@ == spec_payload_encode(self.spec_model()),
    {
        let mut out: Vec<u8> = Vec::new();
        append_field(&mut out, KEY_TAG, &self.identity_key);
        append_field(&mut out, SIG_TAG, &self.identity_sig);
        append_field(&mut out, EXTENSIONS_TAG, &self.extensions);
        proof {
            assert(out@ =~= spec_payload_encode(self.spec_model()));
        }
        out
    }

    /// Decode a protobuf-encoded payload.
    ///
    /// Fails exactly when the bytes are not a sequence of well-formed
    /// length-delimited fields.
    pub fn decode(bytes: &[u8]) -> (r: core::result::Result<Self, PadawanError>)
        ensures
            match spec_payload_parse(bytes@, (None, None, None)) {
                Option::Some(m) => r matches Ok(p) && p.spec_model() == m,
                Option::None => r == Err::<Self, PadawanError>(PadawanError::DecodePayload),
            },
    {
        let ghost s = bytes@;
        let n = bytes.len();
        let mut key: Option<Vec<u8>> = None;
        let mut sig: Option<Vec<u8>> = None;
        let mut ext: Option<Vec<u8>> = None;
        let mut pos: usize = 0;
        proof {
            assert(s.skip(0) =~= s);
        }
        while pos < n
            invariant
                s == bytes@,
                n == s.len(),
                pos <= n,
                spec_payload_parse(s, (None, None, None)) == spec_payload_parse(
                    s.skip(pos as int),
                    (opt_view(key), opt_view(sig), opt_view(ext)),
                ),
            decreases n - pos,
        {
            let ghost sub = s.skip(pos as int);
            let ghost acc = (opt_view(key), opt_view(sig), opt_view(ext));
            let tag = bytes[pos];
            proof {
                assert(sub[0] == tag);
            }
            if tag % 8 != 2 {
                return Err(PadawanError::DecodePayload);
            }
            proof {
                assert(sub.skip(1) =~= s.skip(pos + 1));
            }
            let (len, used) = match varint::decode_usize_from(bytes, pos + 1) {
                Ok(parsed) => parsed,
                Err(_) => {
                    return Err(PadawanError::DecodePayload);
                },
            };
            proof {
                varint::lemma_parse_used_bound(s.skip(pos + 1));
            }
            if len > n - (pos + 1) - used {
                return Err(PadawanError::DecodePayload);
            }
            let start = pos + 1 + used;
            let mut data: Vec<u8> = Vec::new();
            let mut i: usize = start;
            while i < start + len
                invariant
                    s == bytes@,
                    n == s.len(),
                    start <= i <= start + len,
                    start + len <= n,
                    data@ == s.subrange(start as int, i as int),
                decreases start + len - i,
            {
                data.push(bytes[i]);
                proof {
                    assert(data@ =~= s.subrange(start as int, i + 1));
                }
                i = i + 1;
            }
            proof {
                assert(data@ =~= sub.subrange(1 + used as int, 1 + used + len));
                assert(sub.skip(1 + used + len) =~= s.skip(start + len));
            }
            if tag == KEY_TAG {
                key = Some(data);
            } else if tag == SIG_TAG {
                sig = Some(data);
            } else if tag == EXTENSIONS_TAG {
                ext = Some(data);
            }
            pos = start + len;
        }
        proof {
            assert(s.skip(pos as int).len() == 0);
        }
        Ok(NoiseHandshakePayload { identity_key: key, identity_sig: sig, extensions: ext })
    }

    /// Verify the payload's signature: the declared public key must
    /// sign the identity message built from the Noise-negotiated remote
    /// static key — never from the payload itself.
    ///
    /// Succeeds exactly when the declared key decodes, a signature is
    /// present, and it verifies over the identity message. A malformed
    /// key yields the key-decode error; a missing or failing signature
    /// yields the verification error.
    pub fn verify_identity(&self, identity: Identity) -> (r: core::result::Result<
        (),
        PadawanError,
    >)
        ensures
            r is Ok <==> (identity::key_decodes(self.spec_key_bytes()) && self.identity_sig
                is Some && identity::sig_verifies(
                self.spec_key_bytes(),
                identity_prefix() + identity@,
                self.spec_sig_bytes(),
            )),
            !identity::key_decodes(self.spec_key_bytes()) ==> (r matches Err(e) && e
                matches PadawanError::KeyDecodeError(_)),
            identity::key_decodes(self.spec_key_bytes()) && !(r is Ok) ==> r == Err::<
                (),
                PadawanError,
            >(PadawanError::IdVerification),
    {
        let empty: Vec<u8> = Vec::new();
        let key_bytes: &Vec<u8> = match &self.identity_key {
            Some(k) => k,
            None => &empty,
        };
        let msg = identity.into_message();
        match &self.identity_sig {
            Some(sig) => match identity::decode_and_verify(
                key_bytes.as_slice(),
                msg.as_slice(),
                sig.as_slice(),
            ) {
                Ok(true) => Ok(()),
                Ok(false) => Err(PadawanError::IdVerification),
                Err(e) => Err(PadawanError::KeyDecodeError(e)),
            },
            None => match identity::try_decode_protobuf(key_bytes.as_slice()) {
                Ok(_) => Err(PadawanError::IdVerification),
                Err(e) => Err(PadawanError::KeyDecodeError(e)),
            },
        }
    }
}

/// Append one optional length-delimited field to `out`.
fn append_field(out: &mut Vec<u8>, tag: u8, data: &Option<Vec<u8>>)
    ensures
        final(out)@ == old(out)@ + spec_field(tag, opt_view(*data)),
{
    match data {
        None => {
            proof {
                assert(out@ + spec_field(tag, opt_view(*data)) =~= out@);
            }
        },
        Some(d) => {
            out.push(tag);
            let len_prefix = varint::encode_usize(d.len());
            append_bytes(out, len_prefix.as_slice());
            append_bytes(out, d.as_slice());
            proof {
                assert(out@ =~= old(out)@ + spec_field(tag, opt_view(*data)));
            }
        },
    }
}

/// The fixed domain-separation prefix of the signed identity message:
/// the ASCII bytes of `noise-libp2p-static-key:`.
pub open spec fn identity_prefix() -> Seq<u8> {
    seq![
        110u8, 111, 105, 115, 101, 45, 108, 105, 98, 112, 50, 112, 45, 115, 116, 97, 116, 105,
        99, 45, 107, 101, 121, 58,
    ]
}

/// The peer identity as represented in the noise handshake: a Noise
/// static public key to be bound to a long-term identity key.
pub struct Identity(Vec<u8>);

impl View for Identity {
    type V = Seq<u8>;

    closed spec fn view(&self) -> Seq<u8> {
        self.0@
    }
}

impl Identity {
    /// Create a new identity from the raw key bytes.
    pub fn new(key: &[u8]) -> (r: Self)
        ensures
            r@ == key@,
    {
        let mut owned: Vec<u8> = Vec::new();
        append_bytes(&mut owned, key);
        proof {
            assert(owned@ =~= key@);
        }
        Identity(owned)
    }

    /// Transform the identity into a message for signing: the fixed
    /// prefix followed by the key bytes.
    pub fn into_message(self) -> (r: Vec<u8>)
        ensures
            r@ == identity_prefix() + self@,
    {
        let mut msg: Vec<u8> = vec![
            110u8, 111, 105, 115, 101, 45, 108, 105, 98, 112, 50, 112, 45, 115, 116, 97, 116,
            105, 99, 45, 107, 101, 121, 58,
        ];
        append_bytes(&mut msg, self.0.as_slice());
        msg
    }
}

/// Represents the `libp2p` implementation of the noise handshake: the
/// handshake-phase engine together with the identity exchange.
pub struct NoiseHandshake(Handshake);

impl NoiseHandshake {
    /// The plaintext most recently decrypted by the engine.
    pub closed spec fn spec_read(&self) -> Seq<u8> {
        self.0.spec_read()
    }

    /// The plaintext queued for encryption by the engine.
    pub closed spec fn spec_write(&self) -> Seq<u8> {
        self.0.spec_write()
    }

    /// The ciphertext most recently produced by the engine.
    pub closed spec fn spec_encrypted(&self) -> Seq<u8> {
        self.0.spec_encrypted()
    }

    /// Build an initiator handshake state, with empty buffers.
    pub fn dialer() -> (r: core::result::Result<Self, PadawanError>)
        ensures
            r matches Ok(h) ==> h.spec_read().len() == 0 && h.spec_write().len() == 0
                && h.spec_encrypted().len() == 0,
            r matches Err(e) ==> e matches PadawanError::Snow(_),
    {
        match Handshake::build_initiator() {
            Ok(h) => Ok(NoiseHandshake(h)),
            Err(e) => Err(e),
        }
    }

    /// Build a responder handshake state, with empty buffers.
    pub fn listener() -> (r: core::result::Result<Self, PadawanError>)
        ensures
            r matches Ok(h) ==> h.spec_read().len() == 0 && h.spec_write().len() == 0
                && h.spec_encrypted().len() == 0,
            r matches Err(e) ==> e matches PadawanError::Snow(_),
    {
        match Handshake::build_responder() {
            Ok(h) => Ok(NoiseHandshake(h)),
            Err(e) => Err(e),
        }
    }

    /// Get the inner stateful buffer of the noise-handshake state,
    /// carrying the buffer contents over.
    pub fn into_inner(self) -> (r: Handshake)
        ensures
            r.spec_read() == self.spec_read(),
            r.spec_write() == self.spec_write(),
            r.spec_encrypted() == self.spec_encrypted(),
    {
        self.0
    }

    /// Initial communication: the wire frame of a handshake message
    /// with an empty payload.
    ///
    /// Only the crypto primitive can fail here; the ciphertext always
    /// fits in a frame.
    pub fn hello(&mut self) -> (r: core::result::Result<Vec<u8>, PadawanError>)
        ensures
            final(self).spec_write().len() == 0,
            r matches Ok(f) ==> f@ == wire::spec_frame(final(self).spec_encrypted()),
            r matches Err(e) ==> e matches PadawanError::Snow(_),
    {
        self.0.set_write(Vec::new());
        let ciphertext = match self.0.encrypt() {
            Ok(c) => c,
            Err(e) => {
                return Err(e);
            },
        };
        wire::send(ciphertext.as_slice())
    }

    /// Consume the frame payload of the peer's initial communication.
    pub fn recv_hello(&mut self, message: Vec<u8>) -> (r: core::result::Result<
        (),
        PadawanError,
    >)
        ensures
            r matches Err(e) ==> e matches PadawanError::Snow(_),
    {
        self.0.set_encrypted(message);
        match self.0.decrypt() {
            Ok(_) => Ok(()),
            Err(e) => Err(e),
        }
    }

    /// Receive and verify identity from the remote peer, handed the
    /// payload of the received wire frame.
    pub fn recv_identity(&mut self, message: Vec<u8>) -> (r: core::result::Result<
        (),
        PadawanError,
    >)
        ensures
            r is Ok ==> (spec_payload_parse(final(self).spec_read(), (None, None, None))
                matches Some(m) && m.1 matches Some(sig) && identity::key_decodes(
                model_key_bytes(m),
            ) && (exists |remote: Seq<u8>|
                identity::sig_verifies(model_key_bytes(m), identity_prefix() + remote, sig))),
            r matches Err(e) ==> (e matches PadawanError::Snow(_) || e
                matches PadawanError::DecodePayload || e
                matches PadawanError::MissingRemoteNoiseKey || e
                matches PadawanError::KeyDecodeError(_) || e matches PadawanError::IdVerification),
    {
        self.0.set_encrypted(message);
        let plaintext = match self.0.decrypt() {
            Ok(p) => p,
            Err(e) => {
                return Err(e);
            },
        };
        let payload = match NoiseHandshakePayload::decode(plaintext.as_slice()) {
            Ok(p) => p,
            Err(e) => {
                return Err(e);
            },
        };
        let remote_key = match self.0.remote_static() {
            Some(k) => k,
            None => {
                return Err(PadawanError::MissingRemoteNoiseKey);
            },
        };
        let verdict = payload.verify_identity(Identity::new(remote_key.as_slice()));
        proof {
            if verdict is Ok {
                let m = spec_payload_parse(plaintext@, (None, None, None))->Some_0;
                assert(model_key_bytes(m) == payload.spec_key_bytes());
                assert(m.1 == Some(payload.spec_sig_bytes()));
                assert(identity::sig_verifies(
                    model_key_bytes(m),
                    identity_prefix() + remote_key@,
                    payload.spec_sig_bytes(),
                ));
            }
        }
        verdict
    }

    /// Construct and send the identity payload for the local peer:
    /// returns the wire frame carrying the encrypted payload.
    pub fn send_identity(&mut self, keypair: &libp2p_identity::Keypair) -> (r:
        core::result::Result<Vec<u8>, PadawanError>)
        ensures
            r matches Ok(f) ==> f@ == wire::spec_frame(final(self).spec_encrypted()),
            r is Ok ==> (exists |key: Seq<u8>, sig: Seq<u8>|
                final(self).spec_write() == spec_payload_encode(
                    (Some(key), Some(sig), Option::<Seq<u8>>::None),
                )),
            r matches Err(e) ==> (e matches PadawanError::Snow(_) || e
                matches PadawanError::SigningError(_) || e
                matches PadawanError::NoiseFrameSizeExceeded),
    {
        let local_static = self.0.local_static();
        let msg = Identity::new(local_static.as_slice()).into_message();
        let sig = match identity::sign(keypair, msg.as_slice()) {
            Ok(s) => s,
            Err(e) => {
                return Err(PadawanError::SigningError(e));
            },
        };
        let payload = NoiseHandshakePayload {
            identity_key: Some(identity::encode_protobuf(&identity::public_key(keypair))),
            identity_sig: Some(sig),
            extensions: None,
        };
        let bytes = payload.encode();
        if bytes.len() > wire::MAX_PAYLOAD_SIZE - ENCRYPTION_INFLATION_SIZE {
            // The ciphertext of such a payload could not be framed.
            return Err(PadawanError::NoiseFrameSizeExceeded);
        }
        self.0.set_write(bytes);
        proof {
            assert(self.0.spec_write() == spec_payload_encode(
                (
                    Some(payload.spec_key_bytes()),
                    Some(payload.spec_sig_bytes()),
                    Option::<Seq<u8>>::None,
                ),
            ));
        }
        let ciphertext = match self.0.encrypt() {
            Ok(c) => c,
            Err(e) => {
                return Err(e);
            },
        };
        wire::send(ciphertext.as_slice())
    }
}

} // verus!
