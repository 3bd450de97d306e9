//! The identity codec: a "no hashing at all" engine that stores its input
//! verbatim, tracking the actual used length separately from the capacity.
//!
//! Where a real engine always fills its output, an identity digest may be
//! shorter than the capacity; the buffer beyond the actual length is kept
//! zeroed so that equality over the stored bytes agrees with equality of the
//! content.

use vstd::prelude::*;

use crate::error::Error;
use crate::hasher::{overflow_value, StatefulHasher};
use crate::varint::{read_varint, varint_dec};
use vstd::std_specs::cmp::PartialEqSpec;

verus! {

/// A digest that is the original input itself: up to `S` stored bytes plus
/// the actual length, the remainder of the buffer zero.
///
/// The view is only the first actual-length bytes, not the full capacity.
#[derive(Clone, Debug, Hash)]
pub struct IdentityDigest<const S: usize> {
    size: u8,
    bytes: Vec<u8>,
}

impl<const S: usize> View for IdentityDigest<S> {
    type V = Seq<u8>;

    closed spec fn view(&self) -> Seq<u8> {
        self.bytes@.take(self.size as int)
    }
}

impl<const S: usize> IdentityDigest<S> {
    /// The full stored buffer, padding included.
    pub closed spec fn spec_raw(&self) -> Seq<u8> {
        self.bytes@
    }

    /// The actual length field.
    pub closed spec fn spec_actual_len(&self) -> nat {
        self.size as nat
    }

    /// The buffer is exactly the capacity, the actual length fits both the
    /// capacity and the width of the length field, and the padding is zero.
    pub open spec fn wf(&self) -> bool {
        &&& self.spec_raw().len() == S
        &&& self.spec_actual_len() <= S
        &&& self.spec_actual_len() <= 255
        &&& forall|j: int|
            self.spec_actual_len() <= j < S ==> self.spec_raw()[j] == 0u8
    }

    /// Stores `digest` verbatim, zero-padded to the capacity. Fails exactly
    /// when it is longer than the capacity `S` or the 255-byte limit of the
    /// length field.
    pub fn wrap(digest: &[u8]) -> (r: Result<Self, Error>)
        ensures
            match r {
                Ok(d) => {
                    &&& digest@.len() <= S
                    &&& digest@.len() <= 255
                    &&& d.wf()
                    &&& d@ == digest@
                },
                Err(e) => {
                    &&& digest@.len() > S || digest@.len() > 255
                    &&& e == Error::InvalidSize(digest@.len() as u64)
                },
            },
    {
        if digest.len() > S || digest.len() > 255 {
            Err(Error::InvalidSize(digest.len() as u64))
        } else {
            let d = Self::fit(digest);
            proof {
                assert(d@ =~= digest@);
            }
            Ok(d)
        }
    }

    /// Unconditional construction: keeps the first `min(len, S, 255)` bytes
    /// of `digest` as the actual content and zero-fills the rest.
    pub fn fit(digest: &[u8]) -> (d: Self)
        ensures
            d.wf(),
            d@ == digest@.take(spec_fit_len(digest@.len(), S as nat)),
            d.spec_actual_len() == spec_fit_len(digest@.len(), S as nat),
    {
        let mut keep: usize = digest.len();
        if keep > S {
            keep = S;
        }
        if keep > 255 {
            keep = 255;
        }
        let mut bytes: Vec<u8> = Vec::new();
        let mut i: usize = 0;
        while i < S
            invariant
                i <= S,
                keep <= digest@.len(),
                keep <= S,
                bytes@.len() == i,
                forall|j: int|
                    0 <= j < i ==> bytes@[j] == (if j < keep {
                        digest@[j]
                    } else {
                        0u8
                    }),
            decreases S - i,
        {
            if i < keep {
                bytes.push(digest[i]);
            } else {
                bytes.push(0u8);
            }
            i = i + 1;
        }
        let d = IdentityDigest { size: keep as u8, bytes };
        proof {
            assert(d@ =~= digest@.take(keep as int));
        }
        d
    }

    /// The actual content: only the first actual-length bytes, not the
    /// capacity-wide buffer.
    pub fn as_bytes(&self) -> (r: &[u8])
        requires
            self.wf(),
        ensures
            r@ == self@,
    {
        vstd::slice::slice_subrange(self.bytes.as_slice(), 0, self.size as usize)
    }

    /// The actual length of the stored content.
    pub fn size(&self) -> (r: u8)
        ensures
            r == self.spec_actual_len(),
    {
        self.size
    }

    /// Parses a length-prefixed identity digest from the front of `bytes`: a
    /// varint gives the declared size, which is rejected if it exceeds the
    /// capacity or 255; exactly that many bytes follow. Returns the digest
    /// and the number of bytes consumed.
    pub fn decode_length_prefixed(bytes: &[u8]) -> (r: Result<(Self, usize), Error>)
        ensures
            match r {
                Ok(du) => {
                    &&& du.0.wf()
                    &&& spec_decode_prefixed(bytes@, S as nat)
                        == Ok::<(Seq<u8>, nat), Error>((du.0@, du.1 as nat))
                },
                Err(e) => spec_decode_prefixed(bytes@, S as nat)
                    == Err::<(Seq<u8>, nat), Error>(e),
            },
    {
        let n = bytes.len();
        proof {
            assert(bytes@.skip(0) =~= bytes@);
            crate::varint::lemma_varint_dec_bounds(bytes@);
        }
        let (size, p) = match read_varint(bytes, 0) {
            Ok(v) => v,
            Err(e) => {
                return Err(e);
            },
        };
        if size > S as u64 || size > 255 {
            return Err(Error::InvalidSize(size));
        }
        let size = size as usize;
        if size > n - p {
            return Err(Error::Truncated);
        }
        let d = Self::fit(vstd::slice::slice_subrange(bytes, p, p + size));
        proof {
            assert(d@ =~= bytes@.subrange(p as int, p as int + size as int));
        }
        Ok((d, p + size))
    }
}

/// The number of bytes the unconditional constructor keeps: the input
/// length, clipped to the capacity and to the 255-byte limit of the length
/// field.
pub open spec fn spec_fit_len(len: nat, cap: nat) -> int {
    if len <= cap && len <= 255 {
        len as int
    } else if cap <= 255 {
        cap as int
    } else {
        255
    }
}

/// What parsing a length-prefixed digest from `s` yields for capacity `cap`:
/// the content bytes and the total bytes consumed, or the error the input
/// earns.
pub open spec fn spec_decode_prefixed(s: Seq<u8>, cap: nat) -> Result<(Seq<u8>, nat), Error> {
    match varint_dec(s) {
        None => Err(Error::Truncated),
        Some((v, k)) => if v > cap || v > 255 {
            Err(Error::InvalidSize(v as u64))
        } else if k + v > s.len() {
            Err(Error::Truncated)
        } else {
            Ok((s.subrange(k as int, (k + v) as int), (k + v)))
        },
    }
}

impl<const S: usize> PartialEq for IdentityDigest<S> {
    /// Identity digests are equal exactly when their actual lengths and full
    /// stored buffers are.
    fn eq(&self, other: &Self) -> (r: bool) {
        self.size == other.size && crate::digest::eq_bytes(&self.bytes, &other.bytes)
    }
}

impl<const S: usize> Eq for IdentityDigest<S> {}

impl<const S: usize> vstd::std_specs::cmp::PartialEqSpecImpl for IdentityDigest<S> {
    open spec fn obeys_eq_spec() -> bool {
        true
    }

    open spec fn eq_spec(&self, other: &Self) -> bool {
        &&& self.spec_actual_len() == other.spec_actual_len()
        &&& self.spec_raw() == other.spec_raw()
    }
}

/// For well-formed identity digests — zero padding, length in range — the
/// stored-buffer equality that `==` computes agrees with equality of the
/// actual content.
pub proof fn lemma_identity_eq_is_content_eq<const S: usize>(
    a: &IdentityDigest<S>,
    b: &IdentityDigest<S>,
)
    requires
        a.wf(),
        b.wf(),
    ensures
        a.eq_spec(b) <==> a@ == b@,
{
    if a.eq_spec(b) {
        assert(a@ =~= b@);
    }
    if a@ == b@ {
        assert(a@.len() == a.spec_actual_len());
        assert(b@.len() == b.spec_actual_len());
        assert forall|j: int| 0 <= j < S implies a.spec_raw()[j] == b.spec_raw()[j] by {
            if j < a.spec_actual_len() {
                assert(a.spec_raw()[j] == a@[j]);
                assert(b.spec_raw()[j] == b@[j]);
            }
        }
        assert(a.spec_raw() =~= b.spec_raw());
    }
}

/// The identity hasher: `update` copies input into a fixed buffer of
/// capacity `S` at the current write offset, failing on overflow instead of
/// panicking; `finalize` returns the bytes written so far.
#[derive(Debug)]
pub struct IdentityHasher<const S: usize> {
    bytes: Vec<u8>,
    i: usize,
}

/// A 32-byte identity hasher.
pub type Identity256 = IdentityHasher<32>;

impl<const S: usize> Default for IdentityHasher<S> {
    /// A fresh identity hasher: zeroed buffer, nothing absorbed.
    fn default() -> (h: Self)
        ensures
            h.wf(),
            h.absorbed() == Seq::<u8>::empty(),
    {
        let h = IdentityHasher { bytes: vec![0u8; S], i: 0 };
        proof {
            assert(h.absorbed() =~= Seq::<u8>::empty());
        }
        h
    }
}

impl<const S: usize> StatefulHasher for IdentityHasher<S> {
    type Digest = IdentityDigest<S>;

    /// The buffer is exactly the capacity, the write offset in range, and
    /// everything at or past the offset still zero.
    closed spec fn wf(&self) -> bool {
        &&& self.bytes@.len() == S
        &&& self.i <= S
        &&& self.i <= 255
        &&& forall|j: int| self.i <= j < S ==> self.bytes@[j] == 0u8
    }

    closed spec fn absorbed(&self) -> Seq<u8> {
        self.bytes@.take(self.i as int)
    }

    /// Bounded: the total input may not exceed the capacity, nor the
    /// 255-byte limit of the digest's length field.
    open spec fn can_accept(&self, n: nat) -> bool {
        self.absorbed().len() + n <= S && self.absorbed().len() + n <= 255
    }

    open spec fn digest_len(input: Seq<u8>) -> nat {
        input.len()
    }

    /// The identity engine does not hash: the digest is the input itself.
    open spec fn digest_of(input: Seq<u8>) -> Seq<u8> {
        input
    }

    fn update(&mut self, input: &[u8]) -> (r: Result<(), Error>) {
        let l = input.len();
        let start = self.i;
        if l > S - start || l > 255 - start {
            let lu = l as u64;
            let total = if lu <= u64::MAX - start as u64 {
                start as u64 + lu
            } else {
                u64::MAX
            };
            proof {
                assert(total == overflow_value(self.absorbed().len() + input@.len()));
            }
            return Err(Error::InvalidSize(total));
        }
        let ghost pre = self.bytes@;
        let mut k: usize = 0;
        while k < l
            invariant
                k <= l,
                start + l <= S,
                start + l <= 255,
                input@.len() == l,
                self.i == start,
                self.bytes@.len() == S,
                pre.len() == S,
                forall|j: int| start <= j < S ==> pre[j] == 0u8,
                forall|j: int| 0 <= j < start ==> self.bytes@[j] == pre[j],
                forall|j: int| start <= j < start + k ==> self.bytes@[j] == input@[j - start],
                forall|j: int| start + k <= j < S ==> self.bytes@[j] == pre[j],
            decreases l - k,
        {
            self.bytes.set(start + k, input[k]);
            k = k + 1;
        }
        self.i = start + l;
        proof {
            assert forall|j: int| self.i <= j < S implies self.bytes@[j] == 0u8 by {
                assert(self.bytes@[j] == pre[j]);
            }
            assert(self.absorbed() =~= pre.take(start as int) + input@);
        }
        Ok(())
    }

    fn finalize(&self) -> (d: Self::Digest) {
        self.finalize_identity()
    }

    fn reset(&mut self) {
        self.bytes = vec![0u8; S];
        self.i = 0;
        proof {
            assert(self.absorbed() =~= Seq::<u8>::empty());
        }
    }
}

impl<const S: usize> IdentityHasher<S> {
    /// Like the interface's `finalize`, and additionally known to return a
    /// well-formed digest (zero padding intact).
    pub fn finalize_identity(&self) -> (d: IdentityDigest<S>)
        requires
            self.wf(),
        ensures
            d.wf(),
            d@ == self.absorbed(),
    {
        let d = IdentityDigest { size: self.i as u8, bytes: crate::digest::copy_bytes(&self.bytes) };
        proof {
            assert(d@ =~= self.absorbed());
        }
        d
    }
}

} // verus!
