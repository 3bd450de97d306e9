//! The uniform incremental-hashing interface: every concrete hash engine —
//! block hashers, sponge constructions, the identity codec — implements the
//! same update / finalize / reset contract, so calling code never branches on
//! engine internals.

use vstd::prelude::*;

use crate::error::Error;

verus! {

/// The value carried by an overflow error: the attempted total input length,
/// saturated to the width of the error field.
pub open spec fn overflow_value(total: nat) -> u64 {
    if total > u64::MAX {
        u64::MAX
    } else {
        total as u64
    }
}

/// An incremental hasher.
///
/// Its abstract state is the sequence of input bytes accepted so far
/// (`absorbed`); the digest an engine yields is a function `digest_of` of
/// that sequence alone, so the digest never depends on how the input was
/// chunked, on prior hashing history, or on how often `finalize` ran.
pub trait StatefulHasher: Sized {
    /// The digest container this engine produces, viewed as its byte content.
    type Digest: View<V = Seq<u8>>;

    /// Structural invariant of the hasher state.
    spec fn wf(&self) -> bool;

    /// The input bytes accepted so far, concatenated over all updates.
    spec fn absorbed(&self) -> Seq<u8>;

    /// Whether `n` further input bytes fit. Streaming engines accept any
    /// amount; the identity codec is bounded by its capacity.
    spec fn can_accept(&self, n: nat) -> bool;

    /// The byte length of the digest for a given input.
    spec fn digest_len(input: Seq<u8>) -> nat;

    /// The digest bytes this engine yields for a given input.
    spec fn digest_of(input: Seq<u8>) -> Seq<u8>;

    /// Appends `input` to the accumulating state. Fails — leaving the state
    /// unchanged — exactly when the input does not fit, and then reports the
    /// attempted total as an explicit overflow error.
    fn update(&mut self, input: &[u8]) -> (r: Result<(), Error>)
        requires
            old(self).wf(),
        ensures
            final(self).wf(),
            match r {
                Ok(()) => {
                    &&& old(self).can_accept(input@.len())
                    &&& final(self).absorbed() == old(self).absorbed() + input@
                },
                Err(e) => {
                    &&& !old(self).can_accept(input@.len())
                    &&& final(self).absorbed() == old(self).absorbed()
                    &&& e == Error::InvalidSize(
                        overflow_value(old(self).absorbed().len() + input@.len()))
                },
            },
    ;

    /// Computes the digest of everything absorbed so far, without mutating
    /// the state: repeated calls yield bit-identical digests.
    fn finalize(&self) -> (d: Self::Digest)
        requires
            self.wf(),
        ensures
            d@ == Self::digest_of(self.absorbed()),
            d@.len() == Self::digest_len(self.absorbed()),
    ;

    /// Returns the hasher to its initial state, equivalent to a fresh
    /// instance.
    fn reset(&mut self)
        requires
            old(self).wf(),
        ensures
            final(self).wf(),
            final(self).absorbed() == Seq::<u8>::empty(),
    ;
}

/// Finalize idempotence: `finalize` pins its result to a function of the
/// absorbed input, so two finalize results taken from the same state — with
/// no update between them — are bit-identical.
pub proof fn lemma_finalize_idempotent<H: StatefulHasher>(h: &H, d1: Seq<u8>, d2: Seq<u8>)
    requires
        d1 == H::digest_of(h.absorbed()),
        d2 == H::digest_of(h.absorbed()),
    ensures
        d1 == d2,
{
}

/// Reset isolation: the digest depends on the absorbed bytes alone, so any
/// two hashers of one engine that have absorbed the same input — one fresh,
/// one reset after arbitrary prior history — produce the same digest.
pub proof fn lemma_history_independent<H: StatefulHasher>(a: &H, b: &H)
    requires
        a.absorbed() == b.absorbed(),
    ensures
        H::digest_of(a.absorbed()) == H::digest_of(b.absorbed()),
{
}

} // verus!
