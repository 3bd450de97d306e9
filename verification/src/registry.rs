//! The code registry: a validated mapping from numeric hash-function codes
//! to concrete engines, with dispatch from a code and input to a tagged
//! value.
//!
//! Codes are pairwise distinct within one registry; uniqueness is validated
//! when the registry is constructed, not at use time, and a duplicate is
//! rejected with a conflict value naming both conflicting entries.

use vstd::prelude::*;

use crate::error::Error;
use crate::hasher::StatefulHasher;
use crate::identity::IdentityHasher;
use crate::multihash::Multihash;
use crate::sha2::{sha2_256_of, sha2_512_of, Sha2_256, Sha2_512};
use crate::sha3::{
    keccak_224_of, keccak_256_of, keccak_384_of, keccak_512_of, sha3_224_of, sha3_256_of,
    sha3_384_of, sha3_512_of, Keccak224, Keccak256, Keccak384, Keccak512, Sha3_224, Sha3_256,
    Sha3_384, Sha3_512,
};
use crate::strobe::{strobe_digest, StrobeHasher};

verus! {

/// The conventional code of the identity codec.
pub const IDENTITY: u64 = 0x00;

/// The conventional code of SHA-256.
pub const SHA2_256: u64 = 0x12;

/// The conventional code of SHA-512.
pub const SHA2_512: u64 = 0x13;

/// The conventional code of SHA3-512.
pub const SHA3_512: u64 = 0x14;

/// The conventional code of SHA3-384.
pub const SHA3_384: u64 = 0x15;

/// The conventional code of SHA3-256.
pub const SHA3_256: u64 = 0x16;

/// The conventional code of SHA3-224.
pub const SHA3_224: u64 = 0x17;

/// The conventional code of Keccak-224.
pub const KECCAK_224: u64 = 0x1a;

/// The conventional code of Keccak-256.
pub const KECCAK_256: u64 = 0x1b;

/// The conventional code of Keccak-384.
pub const KECCAK_384: u64 = 0x1c;

/// The conventional code of Keccak-512.
pub const KECCAK_512: u64 = 0x1d;

/// The conventional code of 32-byte Strobe.
pub const STROBE_256: u64 = 0x38b64f;

/// The conventional code of 64-byte Strobe.
pub const STROBE_512: u64 = 0x38b650;

/// The closed set of hash engines a registry can bind a code to.
#[derive(Clone, Copy, Debug, PartialEq, Eq, Structural)]
pub enum Algorithm {
    /// The 32-byte identity codec: stores input verbatim.
    Identity256,
    /// SHA-256.
    Sha2_256,
    /// SHA-512.
    Sha2_512,
    /// SHA3-224.
    Sha3_224,
    /// SHA3-256.
    Sha3_256,
    /// SHA3-384.
    Sha3_384,
    /// SHA3-512.
    Sha3_512,
    /// Keccak-224.
    Keccak224,
    /// Keccak-256.
    Keccak256,
    /// Keccak-384.
    Keccak384,
    /// Keccak-512.
    Keccak512,
    /// Strobe with a 32-byte output.
    Strobe256,
    /// Strobe with a 64-byte output.
    Strobe512,
}

/// The digest bytes that `alg` yields for `input`.
pub open spec fn alg_digest(alg: Algorithm, input: Seq<u8>) -> Seq<u8> {
    match alg {
        Algorithm::Identity256 => input,
        Algorithm::Sha2_256 => sha2_256_of(input),
        Algorithm::Sha2_512 => sha2_512_of(input),
        Algorithm::Sha3_224 => sha3_224_of(input),
        Algorithm::Sha3_256 => sha3_256_of(input),
        Algorithm::Sha3_384 => sha3_384_of(input),
        Algorithm::Sha3_512 => sha3_512_of(input),
        Algorithm::Keccak224 => keccak_224_of(input),
        Algorithm::Keccak256 => keccak_256_of(input),
        Algorithm::Keccak384 => keccak_384_of(input),
        Algorithm::Keccak512 => keccak_512_of(input),
        Algorithm::Strobe256 => strobe_digest(input, 32),
        Algorithm::Strobe512 => strobe_digest(input, 64),
    }
}

/// Whether `alg` accepts `n` bytes of input: streaming engines accept any
/// amount, the identity codec only up to its capacity.
pub open spec fn alg_accepts(alg: Algorithm, n: nat) -> bool {
    match alg {
        Algorithm::Identity256 => n <= 32,
        _ => true,
    }
}

/// One registered binding: a numeric code and the engine it selects.
#[derive(Clone, Copy, Debug, PartialEq, Eq, Structural)]
pub struct RegistryEntry {
    /// The numeric code, as it appears on the wire.
    pub code: u64,
    /// The engine bound to that code.
    pub alg: Algorithm,
}

/// The conflict reported when two entries share one code: the code and the
/// positions of both conflicting definitions.
#[derive(Clone, Copy, Debug, PartialEq, Eq, Structural)]
pub struct DuplicateCode {
    /// The code that was defined more than once.
    pub code: u64,
    /// The position of the earlier definition.
    pub first_index: usize,
    /// The position of the later definition.
    pub second_index: usize,
}

/// Entry sequences with pairwise distinct codes.
pub open spec fn codes_distinct(es: Seq<RegistryEntry>) -> bool {
    forall|i: int, j: int| 0 <= i < j < es.len() ==> es[i].code != es[j].code
}

/// A validated mapping from codes to engines, with capacity `S` for the
/// tagged values it produces.
#[derive(Clone, Debug)]
pub struct Registry<const S: usize> {
    entries: Vec<RegistryEntry>,
}

impl<const S: usize> Registry<S> {
    /// The registered bindings, in registration order.
    pub closed spec fn spec_entries(&self) -> Seq<RegistryEntry> {
        self.entries@
    }

    /// Codes are pairwise distinct; established at construction.
    pub open spec fn wf(&self) -> bool {
        codes_distinct(self.spec_entries())
    }

    /// Whether some entry binds `code`.
    pub open spec fn spec_supports(&self, code: u64) -> bool {
        exists|i: int|
            0 <= i < self.spec_entries().len() && self.spec_entries()[i].code == code
    }

    /// The engine bound to `code`, when one is.
    pub open spec fn spec_alg_of(&self, code: u64) -> Algorithm {
        self.spec_entries()[choose|i: int|
            0 <= i < self.spec_entries().len() && self.spec_entries()[i].code == code].alg
    }

    /// Validates and builds a registry. Succeeds exactly when the codes are
    /// pairwise distinct; a duplicate is rejected with a conflict value
    /// naming both conflicting entries.
    pub fn new(entries: Vec<RegistryEntry>) -> (r: Result<Self, DuplicateCode>)
        ensures
            match r {
                Ok(reg) => reg.wf() && reg.spec_entries() == entries@,
                Err(d) => {
                    &&& 0 <= d.first_index < d.second_index < entries@.len()
                    &&& entries@[d.first_index as int].code == d.code
                    &&& entries@[d.second_index as int].code == d.code
                },
            },
            r is Ok <==> codes_distinct(entries@),
    {
        let mut j: usize = 0;
        while j < entries.len()
            invariant
                j <= entries@.len(),
                forall|a: int, b: int| 0 <= a < b < j ==> entries@[a].code != entries@[b].code,
            decreases entries@.len() - j,
        {
            let mut i: usize = 0;
            while i < j
                invariant
                    i <= j < entries@.len(),
                    forall|a: int| 0 <= a < i ==> entries@[a].code != entries@[j as int].code,
                decreases j - i,
            {
                if entries[i].code == entries[j].code {
                    return Err(DuplicateCode {
                        code: entries[i].code,
                        first_index: i,
                        second_index: j,
                    });
                }
                i = i + 1;
            }
            j = j + 1;
        }
        Ok(Registry { entries })
    }

    /// The registered bindings.
    pub fn entries(&self) -> (r: &Vec<RegistryEntry>)
        ensures
            r@ == self.spec_entries(),
    {
        &self.entries
    }

    /// Looks a code up, yielding the engine bound to it; fails with an
    /// unsupported-code error exactly when no entry binds it.
    pub fn resolve(&self, code: u64) -> (r: Result<Algorithm, Error>)
        requires
            self.wf(),
        ensures
            match r {
                Ok(alg) => self.spec_supports(code) && alg == self.spec_alg_of(code),
                Err(e) => !self.spec_supports(code) && e == Error::UnsupportedCode(code),
            },
    {
        let mut i: usize = 0;
        while i < self.entries.len()
            invariant
                self.wf(),
                i <= self.spec_entries().len(),
                forall|a: int| 0 <= a < i ==> self.spec_entries()[a].code != code,
            decreases self.spec_entries().len() - i,
        {
            if self.entries[i].code == code {
                proof {
                    assert(self.spec_entries()[i as int].code == code);
                    assert(self.spec_supports(code));
                    let w = choose|w: int|
                        0 <= w < self.spec_entries().len()
                            && self.spec_entries()[w].code == code;
                    assert(0 <= w < self.spec_entries().len()
                        && self.spec_entries()[w].code == code);
                    if w < i as int {
                        assert(self.spec_entries()[w].code != self.spec_entries()[i as int].code);
                    }
                    if i < w {
                        assert(self.spec_entries()[i as int].code != self.spec_entries()[w].code);
                    }
                    assert(w == i as int);
                }
                return Ok(self.entries[i].alg);
            }
            i = i + 1;
        }
        Err(Error::UnsupportedCode(code))
    }

    /// The reverse lookup: the first code bound to `alg`, if any. This is
    /// what lets a caller rehash data with the same algorithm that produced
    /// a digest it holds.
    pub fn code_for(&self, alg: Algorithm) -> (r: Option<u64>)
        ensures
            match r {
                Some(c) => exists|i: int|
                    0 <= i < self.spec_entries().len() && self.spec_entries()[i].code == c
                        && self.spec_entries()[i].alg == alg,
                None => forall|i: int|
                    0 <= i < self.spec_entries().len() ==> self.spec_entries()[i].alg != alg,
            },
    {
        let mut i: usize = 0;
        while i < self.entries.len()
            invariant
                i <= self.spec_entries().len(),
                forall|a: int| 0 <= a < i ==> self.spec_entries()[a].alg != alg,
            decreases self.spec_entries().len() - i,
        {
            if self.entries[i].alg == alg {
                return Some(self.entries[i].code);
            }
            i = i + 1;
        }
        None
    }

    /// Resolves `code`, streams `input` through the bound engine and wraps
    /// the digest with the code. Fails with an unsupported-code error for an
    /// unknown code, and with an invalid-size error when the engine rejects
    /// the input or its digest does not fit the capacity `S`.
    pub fn digest(&self, code: u64, input: &[u8]) -> (r: Result<Multihash<S>, Error>)
        requires
            self.wf(),
        ensures
            match r {
                Ok(mh) => {
                    &&& self.spec_supports(code)
                    &&& alg_accepts(self.spec_alg_of(code), input@.len())
                    &&& alg_digest(self.spec_alg_of(code), input@).len() <= S
                    &&& alg_digest(self.spec_alg_of(code), input@).len() <= 255
                    &&& mh.wf()
                    &&& mh.spec_code() == code
                    &&& mh.spec_size() == alg_digest(self.spec_alg_of(code), input@).len()
                    &&& mh.spec_digest() == alg_digest(self.spec_alg_of(code), input@)
                },
                Err(e) => if !self.spec_supports(code) {
                    e == Error::UnsupportedCode(code)
                } else if !alg_accepts(self.spec_alg_of(code), input@.len()) {
                    e == Error::InvalidSize(input@.len() as u64)
                } else {
                    &&& alg_digest(self.spec_alg_of(code), input@).len() > S
                        || alg_digest(self.spec_alg_of(code), input@).len() > 255
                    &&& e == Error::InvalidSize(
                        alg_digest(self.spec_alg_of(code), input@).len() as u64)
                },
            },
    {
        let alg = match self.resolve(code) {
            Ok(alg) => alg,
            Err(e) => {
                return Err(e);
            },
        };
        match alg {
            Algorithm::Identity256 => {
                let mut h: IdentityHasher<32> = Default::default();
                match h.update(input) {
                    Ok(()) => {},
                    Err(e) => {
                        let l = input.len();
                        proof {
                            assert(input@.len() == l);
                            assert(crate::hasher::overflow_value(input@.len())
                                == input@.len() as u64);
                            assert(e == Error::InvalidSize(input@.len() as u64));
                        }
                        return Err(e);
                    },
                }
                let d = h.finalize_identity();
                Multihash::<S>::wrap(code, d.as_bytes())
            },
            Algorithm::Sha2_256 => {
                let mut h: Sha2_256 = Default::default();
                let u = h.update(input);
                proof {
                    assert(u is Ok);
                }
                let d = h.finalize();
                Multihash::<S>::wrap(code, d.as_bytes())
            },
            Algorithm::Sha2_512 => {
                let mut h: Sha2_512 = Default::default();
                let u = h.update(input);
                proof {
                    assert(u is Ok);
                }
                let d = h.finalize();
                Multihash::<S>::wrap(code, d.as_bytes())
            },
            Algorithm::Sha3_224 => {
                let mut h: Sha3_224 = Default::default();
                let u = h.update(input);
                proof {
                    assert(u is Ok);
                }
                let d = h.finalize();
                Multihash::<S>::wrap(code, d.as_bytes())
            },
            Algorithm::Sha3_256 => {
                let mut h: Sha3_256 = Default::default();
                let u = h.update(input);
                proof {
                    assert(u is Ok);
                }
                let d = h.finalize();
                Multihash::<S>::wrap(code, d.as_bytes())
            },
            Algorithm::Sha3_384 => {
                let mut h: Sha3_384 = Default::default();
                let u = h.update(input);
                proof {
                    assert(u is Ok);
                }
                let d = h.finalize();
                Multihash::<S>::wrap(code, d.as_bytes())
            },
            Algorithm::Sha3_512 => {
                let mut h: Sha3_512 = Default::default();
                let u = h.update(input);
                proof {
                    assert(u is Ok);
                }
                let d = h.finalize();
                Multihash::<S>::wrap(code, d.as_bytes())
            },
            Algorithm::Keccak224 => {
                let mut h: Keccak224 = Default::default();
                let u = h.update(input);
                proof {
                    assert(u is Ok);
                }
                let d = h.finalize();
                Multihash::<S>::wrap(code, d.as_bytes())
            },
            Algorithm::Keccak256 => {
                let mut h: Keccak256 = Default::default();
                let u = h.update(input);
                proof {
                    assert(u is Ok);
                }
                let d = h.finalize();
                Multihash::<S>::wrap(code, d.as_bytes())
            },
            Algorithm::Keccak384 => {
                let mut h: Keccak384 = Default::default();
                let u = h.update(input);
                proof {
                    assert(u is Ok);
                }
                let d = h.finalize();
                Multihash::<S>::wrap(code, d.as_bytes())
            },
            Algorithm::Keccak512 => {
                let mut h: Keccak512 = Default::default();
                let u = h.update(input);
                proof {
                    assert(u is Ok);
                }
                let d = h.finalize();
                Multihash::<S>::wrap(code, d.as_bytes())
            },
            Algorithm::Strobe256 => {
                let mut h: StrobeHasher<32> = Default::default();
                let u = h.update(input);
                proof {
                    assert(u is Ok);
                }
                let d = h.finalize();
                Multihash::<S>::wrap(code, d.as_bytes())
            },
            Algorithm::Strobe512 => {
                let mut h: StrobeHasher<64> = Default::default();
                let u = h.update(input);
                proof {
                    assert(u is Ok);
                }
                let d = h.finalize();
                Multihash::<S>::wrap(code, d.as_bytes())
            },
        }
    }
}

} // verus!
