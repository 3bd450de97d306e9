//! Unsigned variable-length integers: seven payload bits per byte, least
//! significant group first, the high bit of each byte a continuation flag.
//!
//! Both directions are specified against the mathematical encoding
//! [`varint_enc`]; the decoder accepts exactly the minimal encodings whose
//! value fits in a `u64` and is proved inverse to the encoder.

use vstd::prelude::*;

use crate::error::Error;

verus! {

/// The encoding of `n`: its base-128 groups from least significant up, each
/// non-final byte marked with the continuation bit.
pub open spec fn varint_enc(n: nat) -> Seq<u8>
    decreases n,
{
    if n < 128 {
        seq![n as u8]
    } else {
        seq![(128 + n % 128) as u8] + varint_enc(n / 128)
    }
}

/// The value and byte length of the varint at the front of `s`, if `s` starts
/// with a complete minimal varint whose value fits in a `u64`; `None` for a
/// truncated, non-minimal or overlong sequence.
pub open spec fn varint_dec(s: Seq<u8>) -> Option<(nat, nat)>
    decreases s.len(),
{
    if s.len() == 0 {
        None
    } else if s[0] < 128 {
        Some((s[0] as nat, 1))
    } else {
        match varint_dec(s.skip(1)) {
            None => None,
            Some((v, k)) => if v == 0 {
                None
            } else if (s[0] - 128) + 128 * v > u64::MAX {
                None
            } else {
                Some((((s[0] - 128) + 128 * v) as nat, (k + 1) as nat))
            },
        }
    }
}

/// A successful decode yields a value that fits in a `u64` and consumes
/// between one byte and the whole sequence.
pub proof fn lemma_varint_dec_bounds(s: Seq<u8>)
    ensures
        varint_dec(s) matches Some(vk) ==> vk.0 <= u64::MAX && 1 <= vk.1 <= s.len(),
    decreases s.len(),
{
    if s.len() > 0 && s[0] >= 128 {
        lemma_varint_dec_bounds(s.skip(1));
    }
}

/// Decoding undoes encoding: a sequence that begins with `varint_enc(n)`
/// decodes to `n`, consuming exactly the encoding.
pub proof fn lemma_varint_roundtrip(n: nat, rest: Seq<u8>)
    requires
        n <= u64::MAX,
    ensures
        varint_dec(varint_enc(n) + rest) == Some((n, varint_enc(n).len())),
    decreases n,
{
    let s = varint_enc(n) + rest;
    if n < 128 {
        assert(s[0] == n as u8);
        assert(varint_dec(s) == Some((n, 1 as nat)));
    } else {
        lemma_varint_roundtrip(n / 128, rest);
        assert(s.skip(1) =~= varint_enc(n / 128) + rest);
        let v = n / 128;
        let k = varint_enc(n / 128).len();
        assert(varint_dec(s.skip(1)) == Some((v, k)));
        assert(v != 0);
        assert(s[0] == (128 + n % 128) as u8);
        assert((s[0] - 128) + 128 * v == n % 128 + 128 * (n / 128));
        assert(n % 128 + 128 * (n / 128) == n) by {
            vstd::arithmetic::div_mod::lemma_fundamental_div_mod(n as int, 128);
        }
        assert(varint_enc(n).len() == k + 1);
    }
}

/// Appends the encoding of `n` to `out`.
pub fn write_varint(n: u64, out: &mut Vec<u8>)
    ensures
        final(out)@ == old(out)@ + varint_enc(n as nat),
{
    let mut m: u64 = n;
    while m >= 128
        invariant
            out@ + varint_enc(m as nat) == old(out)@ + varint_enc(n as nat),
        decreases m,
    {
        let ghost pre = out@;
        out.push((128 + m % 128) as u8);
        proof {
            assert(varint_enc(m as nat) == seq![(128 + m as nat % 128) as u8]
                + varint_enc(m as nat / 128));
            assert(out@ + varint_enc((m / 128) as nat) =~= pre + varint_enc(m as nat));
        }
        m = m / 128;
    }
    let ghost pre = out@;
    out.push(m as u8);
    proof {
        assert(varint_enc(m as nat) == seq![m as u8]);
        assert(out@ =~= pre + varint_enc(m as nat));
        assert(out@ =~= old(out)@ + varint_enc(n as nat));
    }
}

/// Reads the varint that starts at `bytes[pos]`, returning its value and the
/// position just past it; fails on a truncated, non-minimal or overlong
/// sequence.
pub fn read_varint(bytes: &[u8], pos: usize) -> (r: Result<(u64, usize), Error>)
    requires
        pos <= bytes@.len(),
    ensures
        match varint_dec(bytes@.skip(pos as int)) {
            Some(vk) => r == Ok::<(u64, usize), Error>((vk.0 as u64, (pos + vk.1) as usize)),
            None => r == Err::<(u64, usize), Error>(Error::Truncated),
        },
        r matches Ok(vn) ==> pos < vn.1 <= bytes@.len(),
    decreases bytes@.len() - pos,
{
    let ghost s = bytes@.skip(pos as int);
    if pos == bytes.len() {
        return Err(Error::Truncated);
    }
    let b = bytes[pos];
    assert(b == s[0]);
    if b < 128 {
        return Ok((b as u64, pos + 1));
    }
    proof {
        assert(s.skip(1) =~= bytes@.skip(pos as int + 1));
    }
    match read_varint(bytes, pos + 1) {
        Err(e) => Err(e),
        Ok((v, next)) => {
            let c = (b - 128) as u64;
            if v == 0 {
                Err(Error::Truncated)
            } else if v > (u64::MAX - c) / 128 {
                proof {
                    assert(c + 128 * v > u64::MAX) by {
                        assert(v >= (u64::MAX - c) / 128 + 1);
                        assert(128 * v >= 128 * ((u64::MAX - c) / 128 + 1)) by (nonlinear_arith)
                            requires
                                v >= (u64::MAX - c) / 128 + 1,
                        ;
                        vstd::arithmetic::div_mod::lemma_fundamental_div_mod(
                            (u64::MAX - c) as int, 128);
                    }
                }
                Err(Error::Truncated)
            } else {
                proof {
                    assert(c + 128 * v <= u64::MAX) by {
                        assert(128 * v <= 128 * ((u64::MAX - c) / 128)) by (nonlinear_arith)
                            requires
                                v <= (u64::MAX - c) / 128,
                        ;
                        vstd::arithmetic::div_mod::lemma_fundamental_div_mod(
                            (u64::MAX - c) as int, 128);
                    }
                }
                Ok((c + 128 * v, next))
            }
        }
    }
}

} // verus!
