//! The fixed-capacity digest container shared by all hash engines that always
//! fill their output completely.

use vstd::prelude::*;

use crate::error::Error;

verus! {

/// A hash output of exactly `S` bytes.
///
/// The view of a `Digest<S>` is the full stored byte sequence, always of
/// length `S`; equality compares that sequence.
#[derive(Clone, Debug, Hash)]
pub struct Digest<const S: usize> {
    bytes: Vec<u8>,
}

impl<const S: usize> View for Digest<S> {
    type V = Seq<u8>;

    closed spec fn view(&self) -> Seq<u8> {
        self.bytes@
    }
}

impl<const S: usize> Digest<S> {
    /// Every digest holds exactly its capacity in bytes.
    pub open spec fn wf(&self) -> bool {
        self@.len() == S
    }

    /// Exact-length construction: succeeds only when `digest` is exactly `S`
    /// bytes long, and then stores it unchanged.
    pub fn wrap(digest: &[u8]) -> (r: Result<Self, Error>)
        ensures
            match r {
                Ok(d) => digest@.len() == S && d.wf() && d@ == digest@,
                Err(e) => digest@.len() != S && e == Error::InvalidSize(digest@.len() as u64),
            },
    {
        if digest.len() != S {
            Err(Error::InvalidSize(digest.len() as u64))
        } else {
            Ok(Digest { bytes: vstd::slice::slice_to_vec(digest) })
        }
    }

    /// Unconditional construction: copies up to `S` bytes, left-aligned, and
    /// zero-fills the remainder.
    pub fn fit(digest: &[u8]) -> (d: Self)
        ensures
            d.wf(),
            forall|i: int|
                0 <= i < S ==> d@[i] == (if i < digest@.len() {
                    digest@[i]
                } else {
                    0u8
                }),
    {
        let mut bytes: Vec<u8> = Vec::new();
        let mut i: usize = 0;
        while i < S
            invariant
                i <= S,
                bytes@.len() == i,
                forall|j: int|
                    0 <= j < i ==> bytes@[j] == (if j < digest@.len() {
                        digest@[j]
                    } else {
                        0u8
                    }),
            decreases S - i,
        {
            if i < digest.len() {
                bytes.push(digest[i]);
            } else {
                bytes.push(0u8);
            }
            i = i + 1;
        }
        Digest { bytes }
    }

    /// The stored bytes, all `S` of them.
    pub fn as_bytes(&self) -> (r: &[u8])
        ensures
            r@ == self@,
    {
        self.bytes.as_slice()
    }

    /// The capacity, which is also the exact length of every digest of this
    /// type.
    pub fn size(&self) -> (r: usize)
        ensures
            r == S,
    {
        S
    }
}

impl<const S: usize> PartialEq for Digest<S> {
    /// Digests are equal exactly when their full stored byte sequences are.
    fn eq(&self, other: &Self) -> (r: bool) {
        eq_bytes(&self.bytes, &other.bytes)
    }
}

impl<const S: usize> Eq for Digest<S> {}

impl<const S: usize> vstd::std_specs::cmp::PartialEqSpecImpl for Digest<S> {
    open spec fn obeys_eq_spec() -> bool {
        true
    }

    open spec fn eq_spec(&self, other: &Self) -> bool {
        self@ == other@
    }
}

/// An element-for-element copy of a byte vector.
pub fn copy_bytes(v: &Vec<u8>) -> (r: Vec<u8>)
    ensures
        r@ == v@,
{
    let mut r: Vec<u8> = Vec::new();
    let mut i: usize = 0;
    while i < v.len()
        invariant
            i <= v@.len(),
            r@ == v@.take(i as int),
        decreases v@.len() - i,
    {
        let ghost pre = r@;
        r.push(v[i]);
        proof {
            assert(pre + seq![v@[i as int]] =~= v@.take(i as int + 1));
        }
        i = i + 1;
    }
    proof {
        assert(v@.take(v@.len() as int) =~= v@);
    }
    r
}

/// Appends a byte slice to a vector, element for element.
pub fn append_bytes(dst: &mut Vec<u8>, src: &[u8])
    ensures
        final(dst)@ == old(dst)@ + src@,
{
    let mut i: usize = 0;
    while i < src.len()
        invariant
            i <= src@.len(),
            dst@ == old(dst)@ + src@.take(i as int),
        decreases src@.len() - i,
    {
        let ghost pre = dst@;
        dst.push(src[i]);
        proof {
            assert(pre + seq![src@[i as int]] =~= old(dst)@ + src@.take(i as int + 1));
        }
        i = i + 1;
    }
    proof {
        assert(old(dst)@ + src@.take(src@.len() as int) =~= old(dst)@ + src@);
    }
}

/// Byte-sequence equality, used by the digest containers' `==`.
pub fn eq_bytes(a: &Vec<u8>, b: &Vec<u8>) -> (r: bool)
    ensures
        r <==> a@ == b@,
{
    if a.len() != b.len() {
        proof {
            assert(a@ != b@);
        }
        return false;
    }
    let mut i: usize = 0;
    while i < a.len()
        invariant
            i <= a@.len(),
            a@.len() == b@.len(),
            forall|j: int| 0 <= j < i ==> a@[j] == b@[j],
        decreases a@.len() - i,
    {
        if a[i] != b[i] {
            proof {
                assert(a@[i as int] != b@[i as int]);
            }
            return false;
        }
        i = i + 1;
    }
    proof {
        assert(a@ =~= b@);
    }
    true
}

} // verus!
