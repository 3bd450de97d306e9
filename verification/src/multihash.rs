//! The tagged-value container: a numeric code, a declared length and the
//! digest bytes, with its wire encoding and decoding.
//!
//! The wire shape is `varint(code) || varint(length) || bytes[length]` — no
//! other framing and no checksum.

use vstd::prelude::*;

use crate::digest::eq_bytes;
use crate::error::Error;
use crate::varint::{read_varint, varint_dec, varint_enc, write_varint, lemma_varint_roundtrip};

verus! {

/// A digest tagged with the code of the hash function that produced it and
/// its exact byte length, bounded by the capacity `S`.
///
/// Immutable once constructed; equality compares code, length and bytes.
#[derive(Clone, Debug, Hash)]
pub struct Multihash<const S: usize> {
    code: u64,
    size: u8,
    digest: Vec<u8>,
}

impl<const S: usize> Multihash<S> {
    /// The stored digest is exactly as long as the declared size, which never
    /// exceeds the capacity.
    pub open spec fn wf(&self) -> bool {
        &&& self.spec_digest().len() == self.spec_size()
        &&& self.spec_size() <= S
        &&& self.spec_size() <= 255
    }

    /// The numeric code of the hash function that produced the digest.
    pub closed spec fn spec_code(&self) -> u64 {
        self.code
    }

    /// The declared digest length.
    pub closed spec fn spec_size(&self) -> nat {
        self.size as nat
    }

    /// The digest bytes, exactly `spec_size()` of them.
    pub closed spec fn spec_digest(&self) -> Seq<u8> {
        self.digest@
    }

    /// The wire encoding: code varint, length varint, then the digest bytes
    /// verbatim, with no padding.
    pub open spec fn spec_encoding(&self) -> Seq<u8> {
        varint_enc(self.spec_code() as nat) + varint_enc(self.spec_size())
            + self.spec_digest()
    }

    /// Tags `digest` with `code`. Fails exactly when the digest is longer
    /// than the capacity `S` or than the 255-byte limit of the length field.
    pub fn wrap(code: u64, digest: &[u8]) -> (r: Result<Self, Error>)
        ensures
            match r {
                Ok(mh) => {
                    &&& digest@.len() <= S
                    &&& digest@.len() <= 255
                    &&& mh.wf()
                    &&& mh.spec_code() == code
                    &&& mh.spec_size() == digest@.len()
                    &&& mh.spec_digest() == digest@
                },
                Err(e) => {
                    &&& digest@.len() > S || digest@.len() > 255
                    &&& e == Error::InvalidSize(digest@.len() as u64)
                },
            },
    {
        if digest.len() > S || digest.len() > 255 {
            Err(Error::InvalidSize(digest.len() as u64))
        } else {
            Ok(Multihash {
                code,
                size: digest.len() as u8,
                digest: vstd::slice::slice_to_vec(digest),
            })
        }
    }

    /// The code.
    pub fn code(&self) -> (r: u64)
        ensures
            r == self.spec_code(),
    {
        self.code
    }

    /// The declared digest length.
    pub fn size(&self) -> (r: u8)
        ensures
            r == self.spec_size(),
    {
        self.size
    }

    /// The digest bytes.
    pub fn digest(&self) -> (r: &[u8])
        ensures
            r@ == self.spec_digest(),
    {
        self.digest.as_slice()
    }

    /// Emits the wire encoding: varint(code), varint(length), then exactly
    /// `length` digest bytes.
    pub fn to_bytes(&self) -> (r: Vec<u8>)
        requires
            self.wf(),
        ensures
            r@ == self.spec_encoding(),
    {
        let mut out: Vec<u8> = Vec::new();
        write_varint(self.code, &mut out);
        write_varint(self.size as u64, &mut out);
        crate::digest::append_bytes(&mut out, self.digest.as_slice());
        proof {
            assert(out@ =~= self.spec_encoding());
        }
        out
    }

    /// What decoding yields on `s` for capacity `cap`: the code and digest
    /// bytes, or the error that the input earns. Code validity against a
    /// registry is the caller's concern, not the parser's.
    pub open spec fn spec_parse(s: Seq<u8>, cap: nat) -> Result<(nat, Seq<u8>), Error> {
        match varint_dec(s) {
            None => Err(Error::Truncated),
            Some((code, k1)) => match varint_dec(s.skip(k1 as int)) {
                None => Err(Error::Truncated),
                Some((len, k2)) => if len > cap || len > 255 {
                    Err(Error::InvalidSize(len as u64))
                } else if k1 + k2 + len > s.len() {
                    Err(Error::Truncated)
                } else {
                    Ok((code, s.subrange((k1 + k2) as int, (k1 + k2 + len) as int)))
                },
            },
        }
    }

    /// Parses a tagged value from the front of `bytes`; trailing bytes are
    /// ignored. Fails with `InvalidSize` when the declared length exceeds the
    /// capacity, and with `Truncated` when a varint is malformed or fewer
    /// than `length` bytes remain.
    pub fn from_bytes(bytes: &[u8]) -> (r: Result<Self, Error>)
        ensures
            match r {
                Ok(mh) => {
                    &&& mh.wf()
                    &&& Self::spec_parse(bytes@, S as nat)
                        == Ok::<(nat, Seq<u8>), Error>((mh.spec_code() as nat, mh.spec_digest()))
                },
                Err(e) => Self::spec_parse(bytes@, S as nat) == Err::<(nat, Seq<u8>), Error>(e),
            },
    {
        let n = bytes.len();
        proof {
            assert(bytes@.skip(0) =~= bytes@);
            crate::varint::lemma_varint_dec_bounds(bytes@);
        }
        let (code, p1) = match read_varint(bytes, 0) {
            Ok(v) => v,
            Err(e) => {
                return Err(e);
            },
        };
        proof {
            crate::varint::lemma_varint_dec_bounds(bytes@.skip(p1 as int));
        }
        let (len, p2) = match read_varint(bytes, p1) {
            Ok(v) => v,
            Err(e) => {
                return Err(e);
            },
        };
        if len > S as u64 || len > 255 {
            return Err(Error::InvalidSize(len));
        }
        let len = len as usize;
        if len > n - p2 {
            return Err(Error::Truncated);
        }
        let digest = vstd::slice::slice_to_vec(
            vstd::slice::slice_subrange(bytes, p2, p2 + len));
        Ok(Multihash { code, size: len as u8, digest })
    }

    /// Round trip: decoding the encoding of any well-formed tagged value
    /// yields its code and digest bytes unchanged.
    pub proof fn lemma_roundtrip(self)
        requires
            self.wf(),
        ensures
            Self::spec_parse(self.spec_encoding(), S as nat)
                == Ok::<(nat, Seq<u8>), Error>((self.spec_code() as nat, self.spec_digest())),
    {
        let s = self.spec_encoding();
        let c = self.spec_code() as nat;
        let l = self.spec_size();
        let k1 = varint_enc(c).len();
        let k2 = varint_enc(l).len();
        lemma_varint_roundtrip(c, varint_enc(l) + self.spec_digest());
        assert(s =~= varint_enc(c) + (varint_enc(l) + self.spec_digest()));
        assert(varint_dec(s) == Some((c, k1)));
        lemma_varint_roundtrip(l, self.spec_digest());
        assert(s.skip(k1 as int) =~= varint_enc(l) + self.spec_digest());
        assert(varint_dec(s.skip(k1 as int)) == Some((l, k2)));
        assert(s.len() == k1 + k2 + l);
        assert(s.subrange((k1 + k2) as int, (k1 + k2 + l) as int) =~= self.spec_digest());
    }
}

impl<const S: usize> PartialEq for Multihash<S> {
    /// Tagged values are equal exactly when code, declared length and digest
    /// bytes all are.
    fn eq(&self, other: &Self) -> (r: bool) {
        self.code == other.code && self.size == other.size
            && eq_bytes(&self.digest, &other.digest)
    }
}

impl<const S: usize> Eq for Multihash<S> {}

impl<const S: usize> vstd::std_specs::cmp::PartialEqSpecImpl for Multihash<S> {
    open spec fn obeys_eq_spec() -> bool {
        true
    }

    open spec fn eq_spec(&self, other: &Self) -> bool {
        &&& self.spec_code() == other.spec_code()
        &&& self.spec_size() == other.spec_size()
        &&& self.spec_digest() == other.spec_digest()
    }
}

} // verus!
