//! The SHA-3 and Keccak hash engines behind the uniform incremental
//! interface.
//!
//! As with the SHA-2 engines, input is accumulated and handed to the outside
//! implementation when a digest is asked for; the result of each engine is
//! named, and everything around the call is verified against the name.

use vstd::prelude::*;

use crate::digest::{append_bytes, Digest};
use crate::error::Error;
use crate::hasher::StatefulHasher;

verus! {

/// The 28-byte SHA3-224 digest of `input`, a function of the input bytes
/// alone.
pub uninterp spec fn sha3_224_of(input: Seq<u8>) -> Seq<u8>;

/// Relies on sha3::Sha3_224::digest: a one-shot hash of the given bytes,
/// 28 bytes long, depending on the input alone.
#[verifier::external_body]
fn sha3_224_raw(input: &[u8]) -> (r: Vec<u8>)
    ensures
        r@ == sha3_224_of(input@),
        r@.len() == 28,
{
    <::sha3::Sha3_224 as ::sha3::Digest>::digest(input).as_slice().to_vec()
}

/// A SHA3-224 hasher with a 28-byte digest.
#[derive(Debug)]
pub struct Sha3_224 {
    buf: Vec<u8>,
}

impl Default for Sha3_224 {
    /// A fresh hasher with nothing absorbed.
    fn default() -> (h: Self)
        ensures
            h.wf(),
            h.absorbed() == Seq::<u8>::empty(),
    {
        Sha3_224 { buf: Vec::new() }
    }
}

impl StatefulHasher for Sha3_224 {
    type Digest = Digest<28>;

    closed spec fn wf(&self) -> bool {
        true
    }

    closed spec fn absorbed(&self) -> Seq<u8> {
        self.buf@
    }

    /// Streaming: any amount of input is accepted.
    open spec fn can_accept(&self, n: nat) -> bool {
        true
    }

    open spec fn digest_len(input: Seq<u8>) -> nat {
        28
    }

    open spec fn digest_of(input: Seq<u8>) -> Seq<u8> {
        sha3_224_of(input)
    }

    fn update(&mut self, input: &[u8]) -> (r: Result<(), Error>) {
        append_bytes(&mut self.buf, input);
        Ok(())
    }

    fn finalize(&self) -> (d: Self::Digest) {
        let bytes = sha3_224_raw(self.buf.as_slice());
        let d = Digest::<28>::fit(bytes.as_slice());
        proof {
            assert(d@ =~= bytes@);
        }
        d
    }

    fn reset(&mut self) {
        self.buf.clear();
    }
}

/// The 32-byte SHA3-256 digest of `input`, a function of the input bytes
/// alone.
pub uninterp spec fn sha3_256_of(input: Seq<u8>) -> Seq<u8>;

/// Relies on sha3::Sha3_256::digest: a one-shot hash of the given bytes,
/// 32 bytes long, depending on the input alone.
#[verifier::external_body]
fn sha3_256_raw(input: &[u8]) -> (r: Vec<u8>)
    ensures
        r@ == sha3_256_of(input@),
        r@.len() == 32,
{
    <::sha3::Sha3_256 as ::sha3::Digest>::digest(input).as_slice().to_vec()
}

/// A SHA3-256 hasher with a 32-byte digest.
#[derive(Debug)]
pub struct Sha3_256 {
    buf: Vec<u8>,
}

impl Default for Sha3_256 {
    /// A fresh hasher with nothing absorbed.
    fn default() -> (h: Self)
        ensures
            h.wf(),
            h.absorbed() == Seq::<u8>::empty(),
    {
        Sha3_256 { buf: Vec::new() }
    }
}

impl StatefulHasher for Sha3_256 {
    type Digest = Digest<32>;

    closed spec fn wf(&self) -> bool {
        true
    }

    closed spec fn absorbed(&self) -> Seq<u8> {
        self.buf@
    }

    /// Streaming: any amount of input is accepted.
    open spec fn can_accept(&self, n: nat) -> bool {
        true
    }

    open spec fn digest_len(input: Seq<u8>) -> nat {
        32
    }

    open spec fn digest_of(input: Seq<u8>) -> Seq<u8> {
        sha3_256_of(input)
    }

    fn update(&mut self, input: &[u8]) -> (r: Result<(), Error>) {
        append_bytes(&mut self.buf, input);
        Ok(())
    }

    fn finalize(&self) -> (d: Self::Digest) {
        let bytes = sha3_256_raw(self.buf.as_slice());
        let d = Digest::<32>::fit(bytes.as_slice());
        proof {
            assert(d@ =~= bytes@);
        }
        d
    }

    fn reset(&mut self) {
        self.buf.clear();
    }
}

/// The 48-byte SHA3-384 digest of `input`, a function of the input bytes
/// alone.
pub uninterp spec fn sha3_384_of(input: Seq<u8>) -> Seq<u8>;

/// Relies on sha3::Sha3_384::digest: a one-shot hash of the given bytes,
/// 48 bytes long, depending on the input alone.
#[verifier::external_body]
fn sha3_384_raw(input: &[u8]) -> (r: Vec<u8>)
    ensures
        r@ == sha3_384_of(input@),
        r@.len() == 48,
{
    <::sha3::Sha3_384 as ::sha3::Digest>::digest(input).as_slice().to_vec()
}

/// A SHA3-384 hasher with a 48-byte digest.
#[derive(Debug)]
pub struct Sha3_384 {
    buf: Vec<u8>,
}

impl Default for Sha3_384 {
    /// A fresh hasher with nothing absorbed.
    fn default() -> (h: Self)
        ensures
            h.wf(),
            h.absorbed() == Seq::<u8>::empty(),
    {
        Sha3_384 { buf: Vec::new() }
    }
}

impl StatefulHasher for Sha3_384 {
    type Digest = Digest<48>;

    closed spec fn wf(&self) -> bool {
        true
    }

    closed spec fn absorbed(&self) -> Seq<u8> {
        self.buf@
    }

    /// Streaming: any amount of input is accepted.
    open spec fn can_accept(&self, n: nat) -> bool {
        true
    }

    open spec fn digest_len(input: Seq<u8>) -> nat {
        48
    }

    open spec fn digest_of(input: Seq<u8>) -> Seq<u8> {
        sha3_384_of(input)
    }

    fn update(&mut self, input: &[u8]) -> (r: Result<(), Error>) {
        append_bytes(&mut self.buf, input);
        Ok(())
    }

    fn finalize(&self) -> (d: Self::Digest) {
        let bytes = sha3_384_raw(self.buf.as_slice());
        let d = Digest::<48>::fit(bytes.as_slice());
        proof {
            assert(d@ =~= bytes@);
        }
        d
    }

    fn reset(&mut self) {
        self.buf.clear();
    }
}

/// The 64-byte SHA3-512 digest of `input`, a function of the input bytes
/// alone.
pub uninterp spec fn sha3_512_of(input: Seq<u8>) -> Seq<u8>;

/// Relies on sha3::Sha3_512::digest: a one-shot hash of the given bytes,
/// 64 bytes long, depending on the input alone.
#[verifier::external_body]
fn sha3_512_raw(input: &[u8]) -> (r: Vec<u8>)
    ensures
        r@ == sha3_512_of(input@),
        r@.len() == 64,
{
    <::sha3::Sha3_512 as ::sha3::Digest>::digest(input).as_slice().to_vec()
}

/// A SHA3-512 hasher with a 64-byte digest.
#[derive(Debug)]
pub struct Sha3_512 {
    buf: Vec<u8>,
}

impl Default for Sha3_512 {
    /// A fresh hasher with nothing absorbed.
    fn default() -> (h: Self)
        ensures
            h.wf(),
            h.absorbed() == Seq::<u8>::empty(),
    {
        Sha3_512 { buf: Vec::new() }
    }
}

impl StatefulHasher for Sha3_512 {
    type Digest = Digest<64>;

    closed spec fn wf(&self) -> bool {
        true
    }

    closed spec fn absorbed(&self) -> Seq<u8> {
        self.buf@
    }

    /// Streaming: any amount of input is accepted.
    open spec fn can_accept(&self, n: nat) -> bool {
        true
    }

    open spec fn digest_len(input: Seq<u8>) -> nat {
        64
    }

    open spec fn digest_of(input: Seq<u8>) -> Seq<u8> {
        sha3_512_of(input)
    }

    fn update(&mut self, input: &[u8]) -> (r: Result<(), Error>) {
        append_bytes(&mut self.buf, input);
        Ok(())
    }

    fn finalize(&self) -> (d: Self::Digest) {
        let bytes = sha3_512_raw(self.buf.as_slice());
        let d = Digest::<64>::fit(bytes.as_slice());
        proof {
            assert(d@ =~= bytes@);
        }
        d
    }

    fn reset(&mut self) {
        self.buf.clear();
    }
}

/// The 28-byte Keccak-224 digest of `input`, a function of the input bytes
/// alone.
pub uninterp spec fn keccak_224_of(input: Seq<u8>) -> Seq<u8>;

/// Relies on sha3::Keccak224::digest: a one-shot hash of the given bytes,
/// 28 bytes long, depending on the input alone.
#[verifier::external_body]
fn keccak_224_raw(input: &[u8]) -> (r: Vec<u8>)
    ensures
        r@ == keccak_224_of(input@),
        r@.len() == 28,
{
    <::sha3::Keccak224 as ::sha3::Digest>::digest(input).as_slice().to_vec()
}

/// A Keccak-224 hasher with a 28-byte digest.
#[derive(Debug)]
pub struct Keccak224 {
    buf: Vec<u8>,
}

impl Default for Keccak224 {
    /// A fresh hasher with nothing absorbed.
    fn default() -> (h: Self)
        ensures
            h.wf(),
            h.absorbed() == Seq::<u8>::empty(),
    {
        Keccak224 { buf: Vec::new() }
    }
}

impl StatefulHasher for Keccak224 {
    type Digest = Digest<28>;

    closed spec fn wf(&self) -> bool {
        true
    }

    closed spec fn absorbed(&self) -> Seq<u8> {
        self.buf@
    }

    /// Streaming: any amount of input is accepted.
    open spec fn can_accept(&self, n: nat) -> bool {
        true
    }

    open spec fn digest_len(input: Seq<u8>) -> nat {
        28
    }

    open spec fn digest_of(input: Seq<u8>) -> Seq<u8> {
        keccak_224_of(input)
    }

    fn update(&mut self, input: &[u8]) -> (r: Result<(), Error>) {
        append_bytes(&mut self.buf, input);
        Ok(())
    }

    fn finalize(&self) -> (d: Self::Digest) {
        let bytes = keccak_224_raw(self.buf.as_slice());
        let d = Digest::<28>::fit(bytes.as_slice());
        proof {
            assert(d@ =~= bytes@);
        }
        d
    }

    fn reset(&mut self) {
        self.buf.clear();
    }
}

/// The 32-byte Keccak-256 digest of `input`, a function of the input bytes
/// alone.
pub uninterp spec fn keccak_256_of(input: Seq<u8>) -> Seq<u8>;

/// Relies on sha3::Keccak256::digest: a one-shot hash of the given bytes,
/// 32 bytes long, depending on the input alone.
#[verifier::external_body]
fn keccak_256_raw(input: &[u8]) -> (r: Vec<u8>)
    ensures
        r@ == keccak_256_of(input@),
        r@.len() == 32,
{
    <::sha3::Keccak256 as ::sha3::Digest>::digest(input).as_slice().to_vec()
}

/// A Keccak-256 hasher with a 32-byte digest.
#[derive(Debug)]
pub struct Keccak256 {
    buf: Vec<u8>,
}

impl Default for Keccak256 {
    /// A fresh hasher with nothing absorbed.
    fn default() -> (h: Self)
        ensures
            h.wf(),
            h.absorbed() == Seq::<u8>::empty(),
    {
        Keccak256 { buf: Vec::new() }
    }
}

impl StatefulHasher for Keccak256 {
    type Digest = Digest<32>;

    closed spec fn wf(&self) -> bool {
        true
    }

    closed spec fn absorbed(&self) -> Seq<u8> {
        self.buf@
    }

    /// Streaming: any amount of input is accepted.
    open spec fn can_accept(&self, n: nat) -> bool {
        true
    }

    open spec fn digest_len(input: Seq<u8>) -> nat {
        32
    }

    open spec fn digest_of(input: Seq<u8>) -> Seq<u8> {
        keccak_256_of(input)
    }

    fn update(&mut self, input: &[u8]) -> (r: Result<(), Error>) {
        append_bytes(&mut self.buf, input);
        Ok(())
    }

    fn finalize(&self) -> (d: Self::Digest) {
        let bytes = keccak_256_raw(self.buf.as_slice());
        let d = Digest::<32>::fit(bytes.as_slice());
        proof {
            assert(d@ =~= bytes@);
        }
        d
    }

    fn reset(&mut self) {
        self.buf.clear();
    }
}

/// The 48-byte Keccak-384 digest of `input`, a function of the input bytes
/// alone.
pub uninterp spec fn keccak_384_of(input: Seq<u8>) -> Seq<u8>;

/// Relies on sha3::Keccak384::digest: a one-shot hash of the given bytes,
/// 48 bytes long, depending on the input alone.
#[verifier::external_body]
fn keccak_384_raw(input: &[u8]) -> (r: Vec<u8>)
    ensures
        r@ == keccak_384_of(input@),
        r@.len() == 48,
{
    <::sha3::Keccak384 as ::sha3::Digest>::digest(input).as_slice().to_vec()
}

/// A Keccak-384 hasher with a 48-byte digest.
#[derive(Debug)]
pub struct Keccak384 {
    buf: Vec<u8>,
}

impl Default for Keccak384 {
    /// A fresh hasher with nothing absorbed.
    fn default() -> (h: Self)
        ensures
            h.wf(),
            h.absorbed() == Seq::<u8>::empty(),
    {
        Keccak384 { buf: Vec::new() }
    }
}

impl StatefulHasher for Keccak384 {
    type Digest = Digest<48>;

    closed spec fn wf(&self) -> bool {
        true
    }

    closed spec fn absorbed(&self) -> Seq<u8> {
        self.buf@
    }

    /// Streaming: any amount of input is accepted.
    open spec fn can_accept(&self, n: nat) -> bool {
        true
    }

    open spec fn digest_len(input: Seq<u8>) -> nat {
        48
    }

    open spec fn digest_of(input: Seq<u8>) -> Seq<u8> {
        keccak_384_of(input)
    }

    fn update(&mut self, input: &[u8]) -> (r: Result<(), Error>) {
        append_bytes(&mut self.buf, input);
        Ok(())
    }

    fn finalize(&self) -> (d: Self::Digest) {
        let bytes = keccak_384_raw(self.buf.as_slice());
        let d = Digest::<48>::fit(bytes.as_slice());
        proof {
            assert(d@ =~= bytes@);
        }
        d
    }

    fn reset(&mut self) {
        self.buf.clear();
    }
}

/// The 64-byte Keccak-512 digest of `input`, a function of the input bytes
/// alone.
pub uninterp spec fn keccak_512_of(input: Seq<u8>) -> Seq<u8>;

/// Relies on sha3::Keccak512::digest: a one-shot hash of the given bytes,
/// 64 bytes long, depending on the input alone.
#[verifier::external_body]
fn keccak_512_raw(input: &[u8]) -> (r: Vec<u8>)
    ensures
        r@ == keccak_512_of(input@),
        r@.len() == 64,
{
    <::sha3::Keccak512 as ::sha3::Digest>::digest(input).as_slice().to_vec()
}

/// A Keccak-512 hasher with a 64-byte digest.
#[derive(Debug)]
pub struct Keccak512 {
    buf: Vec<u8>,
}

impl Default for Keccak512 {
    /// A fresh hasher with nothing absorbed.
    fn default() -> (h: Self)
        ensures
            h.wf(),
            h.absorbed() == Seq::<u8>::empty(),
    {
        Keccak512 { buf: Vec::new() }
    }
}

impl StatefulHasher for Keccak512 {
    type Digest = Digest<64>;

    closed spec fn wf(&self) -> bool {
        true
    }

    closed spec fn absorbed(&self) -> Seq<u8> {
        self.buf@
    }

    /// Streaming: any amount of input is accepted.
    open spec fn can_accept(&self, n: nat) -> bool {
        true
    }

    open spec fn digest_len(input: Seq<u8>) -> nat {
        64
    }

    open spec fn digest_of(input: Seq<u8>) -> Seq<u8> {
        keccak_512_of(input)
    }

    fn update(&mut self, input: &[u8]) -> (r: Result<(), Error>) {
        append_bytes(&mut self.buf, input);
        Ok(())
    }

    fn finalize(&self) -> (d: Self::Digest) {
        let bytes = keccak_512_raw(self.buf.as_slice());
        let d = Digest::<64>::fit(bytes.as_slice());
        proof {
            assert(d@ =~= bytes@);
        }
        d
    }

    fn reset(&mut self) {
        self.buf.clear();
    }
}

} // verus!
