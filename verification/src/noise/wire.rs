//! The noise-frame wire format: a 16-bit big-endian length prefix
//! followed by the payload, with a maximum-size guard.
use vstd::prelude::*;

use crate::error::PadawanError;

verus! {

/// The largest frame the wire accepts.
pub const MAX_FRAME_SIZE: usize = 65536;

/// The largest payload that may be framed: room for the encryption
/// inflation is reserved out of the maximum frame size.
pub const MAX_PAYLOAD_SIZE: usize = MAX_FRAME_SIZE - crate::noise::ENCRYPTION_INFLATION_SIZE;

/// The frame carrying `payload`: its length as two big-endian bytes,
/// then the payload itself.
pub open spec fn spec_frame(payload: Seq<u8>) -> Seq<u8> {
    seq![(payload.len() / 256) as u8, (payload.len() % 256) as u8] + payload
}

/// The declared length at the head of a frame.
pub open spec fn spec_declared_len(s: Seq<u8>) -> int {
    s[0] * 256 + s[1]
}

/// The payload of a complete well-formed frame: the bytes after the
/// length prefix, provided the prefix matches their count and respects
/// the maximum frame size.
pub open spec fn spec_unframe(s: Seq<u8>) -> Option<Seq<u8>> {
    if s.len() >= 2 && spec_declared_len(s) == s.len() - 2 && spec_declared_len(s)
        <= MAX_FRAME_SIZE {
        Some(s.skip(2))
    } else {
        None
    }
}

/// Create a noise frame from the given `payload`.
///
/// Fails, without producing any bytes, when the payload exceeds
/// [`MAX_PAYLOAD_SIZE`].
pub fn send(payload: &[u8]) -> (r: core::result::Result<Vec<u8>, PadawanError>)
    ensures
        payload@.len() > MAX_PAYLOAD_SIZE ==> r == Err::<Vec<u8>, PadawanError>(
            PadawanError::NoiseFrameSizeExceeded,
        ),
        payload@.len() <= MAX_PAYLOAD_SIZE ==> (r matches Ok(f) && f@ == spec_frame(payload@)),
{
    if payload.len() > MAX_PAYLOAD_SIZE {
        return Err(PadawanError::NoiseFrameSizeExceeded);
    }
    let len = payload.len();
    let mut frame: Vec<u8> = Vec::new();
    frame.push((len / 256) as u8);
    frame.push((len % 256) as u8);
    let mut i: usize = 0;
    while i < payload.len()
        invariant
            i <= payload@.len(),
            frame@ == seq![
                (payload@.len() / 256) as u8,
                (payload@.len() % 256) as u8,
            ] + payload@.subrange(0, i as int),
        decreases payload@.len() - i,
    {
        frame.push(payload[i]);
        proof {
            assert(frame@ =~= seq![
                (payload@.len() / 256) as u8,
                (payload@.len() % 256) as u8,
            ] + payload@.subrange(0, i + 1));
        }
        i = i + 1;
    }
    proof {
        assert(payload@.subrange(0, payload@.len() as int) =~= payload@);
    }
    Ok(frame)
}

/// Extract the payload of a complete frame.
///
/// Fails when the bytes are not a single well-formed frame: a declared
/// length beyond [`MAX_FRAME_SIZE`] is a size violation, a short header
/// or a length prefix that disagrees with the body is a malformed
/// frame.
pub fn recv(frame: &[u8]) -> (r: core::result::Result<Vec<u8>, PadawanError>)
    ensures
        match spec_unframe(frame@) {
            Option::Some(p) => r matches Ok(v) && v@ == p,
            Option::None => r is Err,
        },
        frame@.len() < 2 ==> r == Err::<Vec<u8>, PadawanError>(PadawanError::InvalidNoiseFrame),
        frame@.len() >= 2 && spec_declared_len(frame@) > MAX_FRAME_SIZE ==> r == Err::<
            Vec<u8>,
            PadawanError,
        >(PadawanError::NoiseFrameSizeExceeded),
        frame@.len() >= 2 && spec_declared_len(frame@) <= MAX_FRAME_SIZE && spec_declared_len(
            frame@,
        ) != frame@.len() - 2 ==> r == Err::<Vec<u8>, PadawanError>(
            PadawanError::InvalidNoiseFrame,
        ),
{
    if frame.len() < 2 {
        return Err(PadawanError::InvalidNoiseFrame);
    }
    let declared = frame_len(frame[0], frame[1]);
    if declared > MAX_FRAME_SIZE {
        return Err(PadawanError::NoiseFrameSizeExceeded);
    }
    if declared != frame.len() - 2 {
        return Err(PadawanError::InvalidNoiseFrame);
    }
    let mut payload: Vec<u8> = Vec::new();
    let mut i: usize = 2;
    while i < frame.len()
        invariant
            2 <= i <= frame@.len(),
            payload@ == frame@.subrange(2, i as int),
        decreases frame@.len() - i,
    {
        payload.push(frame[i]);
        proof {
            assert(payload@ =~= frame@.subrange(2, i + 1));
        }
        i = i + 1;
    }
    proof {
        assert(payload@ =~= frame@.skip(2));
    }
    Ok(payload)
}

/// The length declared by a frame's two-byte big-endian prefix.
pub fn frame_len(hi: u8, lo: u8) -> (r: usize)
    ensures
        r == hi * 256 + lo,
{
    (hi as usize) * 256 + (lo as usize)
}

/// Framing round-trips: un-framing the frame of any payload that
/// respects the size limit reproduces the payload exactly.
pub proof fn lemma_frame_roundtrip(payload: Seq<u8>)
    requires
        payload.len() <= MAX_PAYLOAD_SIZE,
    ensures
        spec_unframe(spec_frame(payload)) == Some(payload),
{
    let s = spec_frame(payload);
    let n = payload.len() as int;
    assert(n / 256 < 256 && n % 256 < 256);
    assert(s[0] == (n / 256) as u8 && s[1] == (n % 256) as u8);
    assert(spec_declared_len(s) == (n / 256) * 256 + n % 256);
    assert((n / 256) * 256 + n % 256 == n) by (nonlinear_arith)
        requires
            n >= 0,
    ;
    assert(s.skip(2) =~= payload);
}

} // verus!
