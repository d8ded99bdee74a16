//! Encoding and decoding of `multistream_select` protocol identifiers:
//! a varint length prefix followed by the protocol's name, an ASCII
//! string ending in a newline.
use vstd::prelude::*;

use crate::error::PadawanError;
use crate::varint;

pub mod mirror;

verus! {

/// Supported protocols.
#[derive(Debug, Clone, Copy, PartialEq, Eq, Structural)]
pub enum Protocol {
    Multistream,
    Noise,
    Yamux,
    NotAvailable,
}

/// The name `/multistream/1.0.0\n`.
pub open spec fn multistream_name() -> Seq<u8> {
    seq![47u8, 109, 117, 108, 116, 105, 115, 116, 114, 101, 97, 109, 47, 49, 46, 48, 46, 48, 10]
}

/// The name `/noise\n`.
pub open spec fn noise_name() -> Seq<u8> {
    seq![47u8, 110, 111, 105, 115, 101, 10]
}

/// The name `/yamux/1.0.0\n`.
pub open spec fn yamux_name() -> Seq<u8> {
    seq![47u8, 121, 97, 109, 117, 120, 47, 49, 46, 48, 46, 48, 10]
}

/// The name `na\n`, sent for protocols that are not available.
pub open spec fn na_name() -> Seq<u8> {
    seq![110u8, 97, 10]
}

/// The name of each protocol, as bytes.
pub open spec fn spec_name(p: Protocol) -> Seq<u8> {
    match p {
        Protocol::Multistream => multistream_name(),
        Protocol::Noise => noise_name(),
        Protocol::Yamux => yamux_name(),
        Protocol::NotAvailable => na_name(),
    }
}

/// The `multistream_select` encoding of an arbitrary name: a varint
/// length prefix followed by the name itself.
pub open spec fn spec_encode_bytes(name: Seq<u8>) -> Seq<u8> {
    varint::varint_encoding(name.len()) + name
}

/// The encoding of a protocol's name.
pub open spec fn spec_encode(p: Protocol) -> Seq<u8> {
    spec_encode_bytes(spec_name(p))
}

/// The protocol a well-formed name decodes to: a known name yields its
/// protocol, every other name yields `NotAvailable`.
pub open spec fn protocol_of_name(name: Seq<u8>) -> Protocol {
    if name == multistream_name() {
        Protocol::Multistream
    } else if name == noise_name() {
        Protocol::Noise
    } else if name == yamux_name() {
        Protocol::Yamux
    } else {
        Protocol::NotAvailable
    }
}

/// The result of decoding an encoded protocol: `None` on a missing or
/// oversized varint prefix, or on a prefix that does not match the
/// length of the remaining bytes; otherwise the protocol named by the
/// remaining bytes.
pub open spec fn spec_decode(s: Seq<u8>) -> Option<Protocol> {
    match varint::varint_parse(s) {
        Option::None => None,
        Option::Some((len, used)) => {
            if len == s.len() - used {
                Some(protocol_of_name(s.skip(used as int)))
            } else {
                None
            }
        },
    }
}

impl Protocol {
    /// The name of the protocol as bytes.
    pub fn name(&self) -> (r: Vec<u8>)
        ensures
            r@ == spec_name(*self),
    {
        match self {
            Protocol::Multistream => vec![
                47u8, 109, 117, 108, 116, 105, 115, 116, 114, 101, 97, 109, 47, 49, 46, 48, 46,
                48, 10,
            ],
            Protocol::Noise => vec![47u8, 110, 111, 105, 115, 101, 10],
            Protocol::Yamux => vec![47u8, 121, 97, 109, 117, 120, 47, 49, 46, 48, 46, 48, 10],
            Protocol::NotAvailable => vec![110u8, 97, 10],
        }
    }

    /// Encode the protocol.
    pub fn encode(self) -> (r: Vec<u8>)
        ensures
            r@ == spec_encode(self),
    {
        let name = self.name();
        encode(name.as_slice())
    }

    /// Decode a byte slice into a protocol.
    ///
    /// A well-formed encoding of an unknown name is not an error: it
    /// decodes to [`Protocol::NotAvailable`]. Decoding fails exactly
    /// when the varint prefix is malformed or does not equal the length
    /// of the bytes that follow it.
    pub fn decode(encoded: &[u8]) -> (r: core::result::Result<Self, PadawanError>)
        ensures
            match spec_decode(encoded@) {
                Option::Some(p) => r == Ok::<Protocol, PadawanError>(p),
                Option::None => r == Err::<Protocol, PadawanError>(
                    PadawanError::InvalidMultistreamEncoding,
                ),
            },
    {
        let total = encoded.len();
        proof {
            varint::lemma_parse_used_bound(encoded@);
        }
        let (len, used) = match varint::decode_usize(encoded) {
            Ok(parsed) => parsed,
            Err(e) => {
                return Err(e);
            },
        };
        if len != total - used {
            return Err(PadawanError::InvalidMultistreamEncoding);
        }
        let mut name: Vec<u8> = Vec::new();
        let mut i: usize = used;
        while i < encoded.len()
            invariant
                used <= i <= encoded@.len(),
                name@ == encoded@.subrange(used as int, i as int),
            decreases encoded@.len() - i,
        {
            name.push(encoded[i]);
            proof {
                assert(name@ =~= encoded@.subrange(used as int, i + 1));
            }
            i = i + 1;
        }
        proof {
            assert(name@ =~= encoded@.skip(used as int));
        }
        let p = match_name(&name);
        Ok(p)
    }
}

/// Match a name against the known protocols.
fn match_name(name: &Vec<u8>) -> (r: Protocol)
    ensures
        r == protocol_of_name(name@),
{
    let multistream = Protocol::Multistream.name();
    let noise = Protocol::Noise.name();
    let yamux = Protocol::Yamux.name();
    if bytes_eq(name.as_slice(), multistream.as_slice()) {
        Protocol::Multistream
    } else if bytes_eq(name.as_slice(), noise.as_slice()) {
        Protocol::Noise
    } else if bytes_eq(name.as_slice(), yamux.as_slice()) {
        Protocol::Yamux
    } else {
        Protocol::NotAvailable
    }
}

/// Compare two byte slices for equality.
pub fn bytes_eq(a: &[u8], b: &[u8]) -> (r: bool)
    ensures
        r == (a@ == b@),
{
    if a.len() != b.len() {
        proof {
            assert(a@ != b@);
        }
        return false;
    }
    let mut i: usize = 0;
    while i < a.len()
        invariant
            i <= a@.len(),
            a@.len() == b@.len(),
            forall|j: int| 0 <= j < i ==> a@[j] == b@[j],
        decreases a@.len() - i,
    {
        if a[i] != b[i] {
            proof {
                assert(a@ != b@);
            }
            return false;
        }
        i = i + 1;
    }
    proof {
        assert(a@ =~= b@);
    }
    true
}

/// Encode an arbitrary slice of bytes according to the
/// `multistream_select` specification.
pub fn encode(bytes: &[u8]) -> (r: Vec<u8>)
    ensures
        r@ == spec_encode_bytes(bytes@),
{
    let mut encoded = varint::encode_usize(bytes.len());
    let mut i: usize = 0;
    while i < bytes.len()
        invariant
            i <= bytes@.len(),
            encoded@ == varint::varint_encoding(bytes@.len()) + bytes@.subrange(0, i as int),
        decreases bytes@.len() - i,
    {
        encoded.push(bytes[i]);
        proof {
            assert(encoded@ =~= varint::varint_encoding(bytes@.len()) + bytes@.subrange(
                0,
                i + 1,
            ));
        }
        i = i + 1;
    }
    proof {
        assert(bytes@.subrange(0, bytes@.len() as int) =~= bytes@);
    }
    encoded
}

/// A protocol name in its wire encoding.
pub struct EncodedProtocol(Vec<u8>);

impl View for EncodedProtocol {
    type V = Seq<u8>;

    closed spec fn view(&self) -> Seq<u8> {
        self.0@
    }
}

impl EncodedProtocol {
    /// Encode the given protocol.
    pub fn new(protocol: Protocol) -> (r: Self)
        ensures
            r@ == spec_encode(protocol),
    {
        EncodedProtocol(protocol.encode())
    }

    /// The encoded bytes.
    pub fn as_bytes(&self) -> (r: &[u8])
        ensures
            r@ == self@,
    {
        self.0.as_slice()
    }

    /// The encoded bytes, from a mutable handle.
    pub fn as_bytes_mut(&mut self) -> (r: &[u8])
        ensures
            r@ == old(self)@,
            *final(self) == *old(self),
    {
        self.0.as_slice()
    }
}

/// Decoding inverts encoding: the encoding of any name decodes to the
/// protocol of that name. In particular a well-formed but unknown name
/// yields `NotAvailable` rather than an error.
pub proof fn lemma_encode_bytes_decode(name: Seq<u8>)
    ensures
        spec_decode(spec_encode_bytes(name)) == Some(protocol_of_name(name)),
{
    varint::lemma_varint_roundtrip(name.len(), name);
    let s = spec_encode_bytes(name);
    let prefix = varint::varint_encoding(name.len());
    assert(s.skip(prefix.len() as int) =~= name);
}

/// The encoding of any known protocol is short: one varint byte and a
/// name of at most nineteen bytes.
pub proof fn lemma_encode_len(p: Protocol)
    ensures
        spec_encode(p).len() <= 20,
{
    varint::lemma_varint_encoding_small(spec_name(p).len());
}

/// Every known protocol round-trips through its encoding.
pub proof fn lemma_protocol_roundtrip(p: Protocol)
    ensures
        spec_decode(spec_encode(p)) == Some(p),
{
    lemma_encode_bytes_decode(spec_name(p));
    assert(protocol_of_name(spec_name(p)) == p) by {
        // The four names have pairwise distinct lengths.
        assert(multistream_name().len() == 19 && noise_name().len() == 7 && yamux_name().len()
            == 13 && na_name().len() == 3);
        assert(multistream_name() != noise_name());
        assert(multistream_name() != yamux_name());
        assert(multistream_name() != na_name());
        assert(noise_name() != yamux_name());
        assert(noise_name() != na_name());
        assert(yamux_name() != na_name());
    }
}

} // verus!
