//! Tests for the `multistream_select` protocol codec.
use substrate_padawan::error::PadawanError;
use substrate_padawan::multistream_select::{encode, EncodedProtocol, Protocol};

#[test]
fn protocol_decode_supported() {
    let protocol = Protocol::Yamux;
    assert!(matches!(
        Protocol::decode(&protocol.encode()),
        Ok(Protocol::Yamux)
    ));
}

#[test]
fn protocol_decode_unsupported() {
    let protocol = b"unsupported";
    assert!(matches!(
        Protocol::decode(&encode(protocol)),
        Ok(Protocol::NotAvailable)
    ));
}

#[test]
fn protocol_decode_invalid() {
    let protocol = b"invalid";
    assert!(Protocol::decode(protocol).is_err());
}

#[test]
fn protocol_names() {
    assert_eq!(Protocol::Multistream.name(), b"/multistream/1.0.0\n");
    assert_eq!(Protocol::Noise.name(), b"/noise\n");
    assert_eq!(Protocol::Yamux.name(), b"/yamux/1.0.0\n");
    assert_eq!(Protocol::NotAvailable.name(), b"na\n");
}

#[test]
fn protocol_encode_exact() {
    let mut expected = vec![19u8];
    expected.extend_from_slice(b"/multistream/1.0.0\n");
    assert_eq!(Protocol::Multistream.encode(), expected);
    assert_eq!(Protocol::Noise.encode(), {
        let mut v = vec![7u8];
        v.extend_from_slice(b"/noise\n");
        v
    });
}

#[test]
fn protocol_roundtrip_all_variants() {
    for protocol in [
        Protocol::Multistream,
        Protocol::Noise,
        Protocol::Yamux,
        Protocol::NotAvailable,
    ] {
        let decoded = Protocol::decode(&protocol.encode()).unwrap();
        assert_eq!(decoded, protocol);
    }
}

#[test]
fn decode_unknown_name_is_not_an_error() {
    let encoded = encode(b"/unknown/1.0.0\n");
    assert!(matches!(
        Protocol::decode(&encoded),
        Ok(Protocol::NotAvailable)
    ));
}

#[test]
fn decode_length_mismatch_is_encoding_error() {
    // A varint that claims 10 bytes followed by only 7.
    let mut encoded = vec![10u8];
    encoded.extend_from_slice(b"/noise\n");
    assert!(matches!(
        Protocol::decode(&encoded),
        Err(PadawanError::InvalidMultistreamEncoding)
    ));
    // A varint that claims 3 bytes followed by 7.
    let mut encoded = vec![3u8];
    encoded.extend_from_slice(b"/noise\n");
    assert!(matches!(
        Protocol::decode(&encoded),
        Err(PadawanError::InvalidMultistreamEncoding)
    ));
}

#[test]
fn decode_empty_and_truncated_varint() {
    assert!(Protocol::decode(b"").is_err());
    // A lone continuation byte is an incomplete varint.
    assert!(Protocol::decode(&[0x80]).is_err());
}

#[test]
fn encode_long_name_uses_multibyte_varint() {
    let name = vec![b'x'; 300];
    let encoded = encode(&name);
    // 300 = 0b10_0101100: low seven bits then the high bits.
    assert_eq!(encoded[0], 0xAC);
    assert_eq!(encoded[1], 0x02);
    assert_eq!(&encoded[2..], name.as_slice());
    assert!(matches!(
        Protocol::decode(&encoded),
        Ok(Protocol::NotAvailable)
    ));
}

#[test]
fn encoded_protocol_as_bytes() {
    let mut encoded = EncodedProtocol::new(Protocol::Yamux);
    assert_eq!(encoded.as_bytes(), Protocol::Yamux.encode().as_slice());
    assert_eq!(encoded.as_bytes_mut(), Protocol::Yamux.encode().as_slice());
}
