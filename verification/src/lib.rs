//! A self-describing hash-value format: a compact binary encoding that tags a
//! cryptographic digest with the numeric identifier of the hash function that
//! produced it and its exact byte length, so a digest can be interpreted
//! without external context.

pub mod digest;
pub mod error;
pub mod hasher;
pub mod identity;
pub mod multihash;
pub mod registry;
pub mod sha2;
pub mod sha3;
pub mod strobe;
pub mod varint;

pub use crate::digest::Digest;
pub use crate::error::Error;
pub use crate::hasher::StatefulHasher;
pub use crate::identity::{Identity256, IdentityDigest, IdentityHasher};
pub use crate::multihash::Multihash;
pub use crate::registry::{Algorithm, DuplicateCode, Registry, RegistryEntry};
pub use crate::registry::{
    IDENTITY, KECCAK_224, KECCAK_256, KECCAK_384, KECCAK_512, SHA2_256, SHA2_512, SHA3_224,
    SHA3_256, SHA3_384, SHA3_512, STROBE_256, STROBE_512,
};
pub use crate::sha2::{Sha2_256, Sha2_512};
pub use crate::sha3::{
    Keccak224, Keccak256, Keccak384, Keccak512, Sha3_224, Sha3_256, Sha3_384, Sha3_512,
};
pub use crate::strobe::{Strobe256, Strobe512, StrobeHasher};
