//! Unsigned variable-length integer encoding (base-128 with continuation
//! bits, least significant group first), as used by the
//! `multistream_select` length prefix.
use vstd::prelude::*;

use crate::error::PadawanError;

verus! {

/// The byte encoding of `n`: groups of seven bits, least significant
/// first, the high bit of a byte set exactly when more bytes follow.
pub open spec fn varint_encoding(n: nat) -> Seq<u8>
    decreases n,
{
    if n < 128 {
        seq![n as u8]
    } else {
        seq![(128 + (n % 128)) as u8] + varint_encoding(n / 128)
    }
}

/// The value and byte count of the varint at the head of `s`, if `s`
/// starts with a complete varint.
pub open spec fn varint_parse(s: Seq<u8>) -> Option<(nat, nat)>
    decreases s.len(),
{
    if s.len() == 0 {
        None
    } else if s[0] < 128 {
        Some((s[0] as nat, 1))
    } else {
        match varint_parse(s.skip(1)) {
            Option::None => None,
            Option::Some((v, used)) => Some((((s[0] - 128) + 128 * v) as nat, (used + 1) as nat)),
        }
    }
}

/// A parsed value is at least the value of its first seven-bit group.
proof fn lemma_parse_lower_bound(s: Seq<u8>)
    requires
        varint_parse(s) is Some,
        s.len() > 0,
    ensures
        s[0] < 128 ==> varint_parse(s)->Some_0.0 == s[0] as nat,
        s[0] >= 128 ==> varint_parse(s)->Some_0.0 >= (s[0] - 128) as nat,
{
}

/// A parse consumes at least one byte and no more than the input.
pub proof fn lemma_parse_used_bound(s: Seq<u8>)
    ensures
        varint_parse(s) is Some ==> 1 <= varint_parse(s)->Some_0.1 <= s.len(),
    decreases s.len(),
{
    if s.len() > 0 && s[0] >= 128 {
        lemma_parse_used_bound(s.skip(1));
    }
}

/// Encode `n` as a varint.
pub fn encode_usize(n: usize) -> (r: Vec<u8>)
    ensures
        r@ == varint_encoding(n as nat),
{
    let mut out: Vec<u8> = Vec::new();
    let mut rest: usize = n;
    loop
        invariant
            out@ + varint_encoding(rest as nat) == varint_encoding(n as nat),
        decreases rest,
    {
        if rest < 128 {
            out.push(rest as u8);
            proof {
                assert(out@ =~= varint_encoding(n as nat));
            }
            return out;
        } else {
            out.push((128 + rest % 128) as u8);
            proof {
                assert(out@ + varint_encoding((rest / 128) as nat) =~= varint_encoding(
                    n as nat,
                ));
            }
            rest = rest / 128;
        }
    }
}

/// Relates one step of the accumulator loop in [`decode`] to the
/// recursive parse of the remaining bytes.
proof fn lemma_parse_step(s: Seq<u8>, i: int)
    requires
        0 <= i < s.len(),
    ensures
        s[i] < 128 ==> varint_parse(s.skip(i)) == Some::<(nat, nat)>((s[i] as nat, 1nat)),
        s[i] >= 128 && varint_parse(s.skip(i + 1)) is None ==> varint_parse(s.skip(i)) is None,
        s[i] >= 128 && varint_parse(s.skip(i + 1)) is Some ==> varint_parse(s.skip(i))
            == Some::<(nat, nat)>(
            (
                ((s[i] - 128) + 128 * varint_parse(s.skip(i + 1))->Some_0.0) as nat,
                (varint_parse(s.skip(i + 1))->Some_0.1 + 1) as nat,
            ),
        ),
{
    assert(s.skip(i).len() > 0);
    assert(s.skip(i)[0] == s[i]);
    assert(s.skip(i).skip(1) =~= s.skip(i + 1));
}

/// Decode a varint from the start of `bytes`.
///
/// Returns the value and the number of bytes it occupies. Fails when the
/// bytes do not begin with a complete varint, or when the encoded value
/// does not fit in `usize`.
pub fn decode_usize(bytes: &[u8]) -> (r: core::result::Result<(usize, usize), PadawanError>)
    ensures
        match varint_parse(bytes@) {
            Option::Some((v, used)) => {
                if v <= usize::MAX {
                    r matches Ok(p) && p.0 == v && p.1 == used
                } else {
                    r == Err::<(usize, usize), PadawanError>(
                        PadawanError::InvalidMultistreamEncoding,
                    )
                }
            },
            Option::None => r == Err::<(usize, usize), PadawanError>(
                PadawanError::InvalidMultistreamEncoding,
            ),
        },
{
    proof {
        assert(bytes@.skip(0) =~= bytes@);
    }
    decode_usize_from(bytes, 0)
}

/// Decode a varint from position `start` of `bytes`.
///
/// As [`decode_usize`], on the bytes from `start` on.
pub fn decode_usize_from(bytes: &[u8], start: usize) -> (r: core::result::Result<
    (usize, usize),
    PadawanError,
>)
    requires
        start <= bytes@.len(),
    ensures
        varint_parse(bytes@.skip(start as int)) matches Some(pr) ==> ((pr.0 <= usize::MAX ==> (
        r matches Ok(p) && p.0 == pr.0 && p.1 == pr.1)) && (pr.0 > usize::MAX ==> r == Err::<
            (usize, usize),
            PadawanError,
        >(PadawanError::InvalidMultistreamEncoding))),
        varint_parse(bytes@.skip(start as int)) is None ==> r == Err::<
            (usize, usize),
            PadawanError,
        >(PadawanError::InvalidMultistreamEncoding),
{
    let ghost s = bytes@.skip(start as int);
    let mut i: usize = 0;
    let mut value: usize = 0;
    // Invariant: when `mult_ok`, `mult == 128^i`; otherwise `128^i`
    // exceeds `usize::MAX` and `mult` is meaningless.
    let mut mult: usize = 1;
    let mut mult_ok: bool = true;
    let ghost mut m: nat = 1nat;
    proof {
        assert(s.skip(0) =~= s);
    }
    loop
        invariant
            start <= bytes@.len(),
            s == bytes@.skip(start as int),
            i <= s.len(),
            mult_ok ==> mult as nat == m,
            !mult_ok ==> m > usize::MAX,
            match varint_parse(s.skip(i as int)) {
                Option::Some((v2, u2)) => varint_parse(s) == Some::<(nat, nat)>(
                    ((value + m * v2) as nat, (i + u2) as nat),
                ),
                Option::None => varint_parse(s) is None,
            },
        decreases s.len() - i,
    {
        if i >= bytes.len() - start {
            // Ran out of bytes inside a varint.
            assert(s.skip(i as int).len() == 0);
            return Err(PadawanError::InvalidMultistreamEncoding);
        }
        let b = bytes[start + i];
        proof {
            assert(s[i as int] == bytes@[start + i]);
            lemma_parse_step(s, i as int);
        }
        let low: usize = (b % 128) as usize;
        let cont = b >= 128;
        let ghost v_rest = varint_parse(s.skip(i as int));
        let ghost value0 = value;
        if low > 0 {
            if !mult_ok {
                // The group's weight alone exceeds `usize::MAX`.
                proof {
                    if v_rest is Some {
                        let (v2, _) = v_rest->Some_0;
                        lemma_parse_lower_bound(s.skip(i as int));
                        assert(v2 >= low);
                        assert(m * v2 >= m * low >= m) by (nonlinear_arith)
                            requires
                                v2 >= low,
                                low >= 1,
                                m > 0,
                        ;
                    }
                }
                return Err(PadawanError::InvalidMultistreamEncoding);
            }
            if mult > (usize::MAX - value) / low {
                // Accumulating this group would overflow `usize`.
                proof {
                    assert(mult * low > usize::MAX - value) by (nonlinear_arith)
                        requires
                            low > 0,
                            mult > (usize::MAX - value) as int / low as int,
                    ;
                    if v_rest is Some {
                        let (v2, _) = v_rest->Some_0;
                        lemma_parse_lower_bound(s.skip(i as int));
                        assert(v2 >= low);
                        assert(m * v2 >= m * low) by (nonlinear_arith)
                            requires
                                v2 >= low,
                                m > 0,
                        ;
                    }
                }
                return Err(PadawanError::InvalidMultistreamEncoding);
            }
            proof {
                assert(value + low * mult <= usize::MAX) by (nonlinear_arith)
                    requires
                        low > 0,
                        value <= usize::MAX,
                        mult <= (usize::MAX - value) as int / low as int,
                ;
            }
            value = value + low * mult;
        }
        if !cont {
            proof {
                assert(varint_parse(s.skip(i as int)) == Some::<(nat, nat)>((b as nat, 1nat)));
                let pr = varint_parse(s)->Some_0;
                assert(pr.0 == value0 + m * (b as nat));
                assert(pr.1 == i + 1);
                if low > 0 {
                    assert(value == value0 + low * mult);
                    assert(m == mult as nat);
                    assert((low as nat) * (mult as nat) == m * (b as nat));
                } else {
                    assert(m * (b as nat) == 0);
                }
                assert(pr.0 == value);
            }
            return Ok((value, i + 1));
        }
        // Advance past a continuation byte.
        proof {
            if varint_parse(s.skip(i as int + 1)) is Some {
                let (v3, u3) = varint_parse(s.skip(i as int + 1))->Some_0;
                assert(m * ((b - 128) + 128 * v3) == m * (b - 128) + (m * 128) * v3)
                    by (nonlinear_arith);
            }
        }
        proof {
            m = m * 128;
        }
        if mult_ok {
            if mult <= usize::MAX / 128 {
                mult = mult * 128;
            } else {
                mult_ok = false;
                proof {
                    assert(mult * 128 > usize::MAX) by (nonlinear_arith)
                        requires
                            mult > usize::MAX / 128,
                    ;
                }
            }
        } else {
            proof {
                assert(m >= m / 128);
            }
        }
        i = i + 1;
    }
}

/// Every varint round-trips: parsing the encoding of `n`, with anything
/// after it, yields `n` and consumes exactly the encoding.
pub proof fn lemma_varint_roundtrip(n: nat, rest: Seq<u8>)
    ensures
        varint_parse(varint_encoding(n) + rest) == Some::<(nat, nat)>(
            (n, varint_encoding(n).len()),
        ),
    decreases n,
{
    let s = varint_encoding(n) + rest;
    if n < 128 {
        assert(s[0] == n as u8);
    } else {
        lemma_varint_roundtrip(n / 128, rest);
        assert(s.skip(1) =~= varint_encoding(n / 128) + rest);
        assert(s[0] == (128 + (n % 128)) as u8);
        assert((s[0] - 128) + 128 * (n / 128) == n);
    }
}

/// The encoding of a value below 128 is a single byte.
pub proof fn lemma_varint_encoding_small(n: nat)
    requires
        n < 128,
    ensures
        varint_encoding(n) == seq![n as u8],
{
}

} // verus!
