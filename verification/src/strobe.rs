//! The Strobe sponge construction behind the uniform incremental interface,
//! generic over the digest size.
//!
//! Input is accumulated and mixed into a fresh Strobe instance as associated
//! data when a digest is asked for; the pseudorandom output for a given
//! input and length is named, and everything around the calls is verified
//! against the name.

use vstd::prelude::*;

use crate::digest::{append_bytes, Digest};
use crate::error::Error;
use crate::hasher::StatefulHasher;

verus! {

/// The `n`-byte Strobe output for associated data `input`: what a fresh
/// 128-bit-security engine under the fixed protocol label yields after
/// absorbing `input` (nothing, for the empty sequence) and extracting `n`
/// pseudorandom bytes. A function of the input and length alone.
pub uninterp spec fn strobe_digest(input: Seq<u8>, n: nat) -> Seq<u8>;

/// Relies on strobe_rs::Strobe::{new, prf}: a fresh engine with protocol
/// label "StrobeHash" at 128-bit security, no data absorbed, extracting `n`
/// bytes; the output fills the given buffer exactly and is independent of
/// its prior contents.
#[verifier::external_body]
fn strobe_prf_fresh(n: usize) -> (r: Vec<u8>)
    ensures
        r@ == strobe_digest(Seq::<u8>::empty(), n as nat),
        r@.len() == n,
{
    let mut st = ::strobe_rs::Strobe::new(b"StrobeHash", ::strobe_rs::SecParam::B128);
    let mut out = vec![0u8; n];
    st.prf(&mut out, false);
    out
}

/// Relies on strobe_rs::Strobe::{new, ad, prf}: a fresh engine with protocol
/// label "StrobeHash" at 128-bit security that absorbs `input` as associated
/// data and extracts `n` bytes; the output fills the given buffer exactly
/// and depends on the input and length alone.
#[verifier::external_body]
fn strobe_ad_prf(input: &[u8], n: usize) -> (r: Vec<u8>)
    requires
        input@.len() > 0,
    ensures
        r@ == strobe_digest(input@, n as nat),
        r@.len() == n,
{
    let mut st = ::strobe_rs::Strobe::new(b"StrobeHash", ::strobe_rs::SecParam::B128);
    st.ad(input, false);
    let mut out = vec![0u8; n];
    st.prf(&mut out, false);
    out
}

/// A Strobe hasher with an `S`-byte digest.
#[derive(Debug)]
pub struct StrobeHasher<const S: usize> {
    buf: Vec<u8>,
}

/// A 32-byte Strobe hasher.
pub type Strobe256 = StrobeHasher<32>;

/// A 64-byte Strobe hasher.
pub type Strobe512 = StrobeHasher<64>;

impl<const S: usize> Default for StrobeHasher<S> {
    /// A fresh hasher with nothing absorbed.
    fn default() -> (h: Self)
        ensures
            h.wf(),
            h.absorbed() == Seq::<u8>::empty(),
    {
        StrobeHasher { buf: Vec::new() }
    }
}

impl<const S: usize> StatefulHasher for StrobeHasher<S> {
    type Digest = Digest<S>;

    closed spec fn wf(&self) -> bool {
        true
    }

    closed spec fn absorbed(&self) -> Seq<u8> {
        self.buf@
    }

    /// Streaming: any amount of input is accepted.
    open spec fn can_accept(&self, n: nat) -> bool {
        true
    }

    open spec fn digest_len(input: Seq<u8>) -> nat {
        S as nat
    }

    open spec fn digest_of(input: Seq<u8>) -> Seq<u8> {
        strobe_digest(input, S as nat)
    }

    fn update(&mut self, input: &[u8]) -> (r: Result<(), Error>) {
        append_bytes(&mut self.buf, input);
        Ok(())
    }

    fn finalize(&self) -> (d: Self::Digest) {
        let bytes = if self.buf.len() == 0 {
            proof {
                assert(self.buf@ =~= Seq::<u8>::empty());
            }
            strobe_prf_fresh(S)
        } else {
            strobe_ad_prf(self.buf.as_slice(), S)
        };
        let d = Digest::<S>::fit(bytes.as_slice());
        proof {
            assert(d@ =~= bytes@);
        }
        d
    }

    fn reset(&mut self) {
        self.buf.clear();
    }
}

} // verus!
