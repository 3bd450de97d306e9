//! The SHA-2 hash engines behind the uniform incremental interface.
//!
//! The engines accumulate their input and hand it to the outside SHA-2
//! implementation when a digest is asked for; what that implementation
//! returns is named, not restated, and everything around the call is
//! verified against the name.

use vstd::prelude::*;

use crate::digest::{append_bytes, Digest};
use crate::error::Error;
use crate::hasher::StatefulHasher;

verus! {

/// The 32-byte SHA-256 digest of `input`, a function of the input bytes
/// alone.
pub uninterp spec fn sha2_256_of(input: Seq<u8>) -> Seq<u8>;

/// The 64-byte SHA-512 digest of `input`, a function of the input bytes
/// alone.
pub uninterp spec fn sha2_512_of(input: Seq<u8>) -> Seq<u8>;

/// Relies on sha2::Sha256::digest: a one-shot hash of the given bytes,
/// 32 bytes long, depending on the input alone.
#[verifier::external_body]
fn sha2_256_raw(input: &[u8]) -> (r: Vec<u8>)
    ensures
        r@ == sha2_256_of(input@),
        r@.len() == 32,
{
    <::sha2::Sha256 as ::sha2::Digest>::digest(input).as_slice().to_vec()
}

/// Relies on sha2::Sha512::digest: a one-shot hash of the given bytes,
/// 64 bytes long, depending on the input alone.
#[verifier::external_body]
fn sha2_512_raw(input: &[u8]) -> (r: Vec<u8>)
    ensures
        r@ == sha2_512_of(input@),
        r@.len() == 64,
{
    <::sha2::Sha512 as ::sha2::Digest>::digest(input).as_slice().to_vec()
}

/// A SHA-256 hasher with a 32-byte digest.
#[derive(Debug)]
pub struct Sha2_256 {
    buf: Vec<u8>,
}

impl Default for Sha2_256 {
    /// A fresh hasher with nothing absorbed.
    fn default() -> (h: Self)
        ensures
            h.wf(),
            h.absorbed() == Seq::<u8>::empty(),
    {
        Sha2_256 { buf: Vec::new() }
    }
}

impl StatefulHasher for Sha2_256 {
    type Digest = Digest<32>;

    closed spec fn wf(&self) -> bool {
        true
    }

    closed spec fn absorbed(&self) -> Seq<u8> {
        self.buf@
    }

    /// Streaming: any amount of input is accepted.
    open spec fn can_accept(&self, n: nat) -> bool {
        true
    }

    open spec fn digest_len(input: Seq<u8>) -> nat {
        32
    }

    open spec fn digest_of(input: Seq<u8>) -> Seq<u8> {
        sha2_256_of(input)
    }

    fn update(&mut self, input: &[u8]) -> (r: Result<(), Error>) {
        append_bytes(&mut self.buf, input);
        Ok(())
    }

    fn finalize(&self) -> (d: Self::Digest) {
        let bytes = sha2_256_raw(self.buf.as_slice());
        let d = Digest::<32>::fit(bytes.as_slice());
        proof {
            assert(d@ =~= bytes@);
        }
        d
    }

    fn reset(&mut self) {
        self.buf.clear();
    }
}

/// A SHA-512 hasher with a 64-byte digest.
#[derive(Debug)]
pub struct Sha2_512 {
    buf: Vec<u8>,
}

impl Default for Sha2_512 {
    /// A fresh hasher with nothing absorbed.
    fn default() -> (h: Self)
        ensures
            h.wf(),
            h.absorbed() == Seq::<u8>::empty(),
    {
        Sha2_512 { buf: Vec::new() }
    }
}

impl StatefulHasher for Sha2_512 {
    type Digest = Digest<64>;

    closed spec fn wf(&self) -> bool {
        true
    }

    closed spec fn absorbed(&self) -> Seq<u8> {
        self.buf@
    }

    /// Streaming: any amount of input is accepted.
    open spec fn can_accept(&self, n: nat) -> bool {
        true
    }

    open spec fn digest_len(input: Seq<u8>) -> nat {
        64
    }

    open spec fn digest_of(input: Seq<u8>) -> Seq<u8> {
        sha2_512_of(input)
    }

    fn update(&mut self, input: &[u8]) -> (r: Result<(), Error>) {
        append_bytes(&mut self.buf, input);
        Ok(())
    }

    fn finalize(&self) -> (d: Self::Digest) {
        let bytes = sha2_512_raw(self.buf.as_slice());
        let d = Digest::<64>::fit(bytes.as_slice());
        proof {
            assert(d@ =~= bytes@);
        }
        d
    }

    fn reset(&mut self) {
        self.buf.clear();
    }
}

} // verus!
