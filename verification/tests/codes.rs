//! The code registry: construction-time uniqueness validation, lookup,
//! dispatch from code and input to a tagged value, and the end-to-end paths
//! through the wire format.

use tiny_multihash::error::Error;
use tiny_multihash::hasher::StatefulHasher;
use tiny_multihash::multihash::Multihash;
use tiny_multihash::registry::{Algorithm, DuplicateCode, Registry, RegistryEntry};
use tiny_multihash::registry::{IDENTITY, KECCAK_256, SHA2_256, SHA2_512, SHA3_256, SHA3_512, STROBE_256};
use tiny_multihash::sha2::Sha2_256 as Sha2_256Hasher;

fn test_registry() -> Registry<64> {
    Registry::new(vec![
        RegistryEntry { code: IDENTITY, alg: Algorithm::Identity256 },
        RegistryEntry { code: SHA2_256, alg: Algorithm::Sha2_256 },
        RegistryEntry { code: SHA2_512, alg: Algorithm::Sha2_512 },
        RegistryEntry { code: SHA3_512, alg: Algorithm::Sha3_512 },
        RegistryEntry { code: SHA3_256, alg: Algorithm::Sha3_256 },
        RegistryEntry { code: KECCAK_256, alg: Algorithm::Keccak256 },
        RegistryEntry { code: STROBE_256, alg: Algorithm::Strobe256 },
    ])
    .unwrap()
}

#[test]
fn registry_rejects_duplicate_codes() {
    let r = Registry::<64>::new(vec![
        RegistryEntry { code: SHA2_256, alg: Algorithm::Sha2_256 },
        RegistryEntry { code: SHA2_256, alg: Algorithm::Sha2_256 },
    ]);
    assert_eq!(
        r.unwrap_err(),
        DuplicateCode { code: SHA2_256, first_index: 0, second_index: 1 }
    );
}

#[test]
fn registry_duplicate_reports_both_conflicting_entries() {
    // The conflict names both definitions, also when they are apart and the
    // engines differ.
    let r = Registry::<64>::new(vec![
        RegistryEntry { code: 0x14, alg: Algorithm::Sha3_512 },
        RegistryEntry { code: 0x12, alg: Algorithm::Sha2_256 },
        RegistryEntry { code: 0x14, alg: Algorithm::Keccak256 },
    ]);
    assert_eq!(
        r.unwrap_err(),
        DuplicateCode { code: 0x14, first_index: 0, second_index: 2 }
    );
}

#[test]
fn registry_accepts_distinct_codes() {
    let reg = test_registry();
    assert_eq!(reg.entries().len(), 7);
    assert_eq!(reg.resolve(SHA2_256), Ok(Algorithm::Sha2_256));
    assert_eq!(reg.resolve(STROBE_256), Ok(Algorithm::Strobe256));
    assert_eq!(reg.resolve(0x99), Err(Error::UnsupportedCode(0x99)));
}

#[test]
fn registry_digest_dispatches_to_the_bound_engine() {
    let reg = test_registry();

    let mh = reg.digest(SHA2_256, b"hello world!").unwrap();
    let mut h = Sha2_256Hasher::default();
    h.update(b"hello world!").unwrap();
    assert_eq!(mh.code(), SHA2_256);
    assert_eq!(mh.size(), 32);
    assert_eq!(mh.digest(), h.finalize().as_bytes());

    let mh = reg.digest(IDENTITY, b"abc").unwrap();
    assert_eq!(mh.code(), IDENTITY);
    assert_eq!(mh.size(), 3);
    assert_eq!(mh.digest(), &b"abc"[..]);

    let mh = reg.digest(STROBE_256, b"abc").unwrap();
    assert_eq!(mh.code(), STROBE_256);
    assert_eq!(mh.size(), 32);
}

#[test]
fn registry_reverse_lookup_finds_the_bound_code() {
    let reg = test_registry();
    assert_eq!(reg.code_for(Algorithm::Sha2_256), Some(SHA2_256));
    assert_eq!(reg.code_for(Algorithm::Strobe256), Some(STROBE_256));
    assert_eq!(reg.code_for(Algorithm::Keccak512), None);
}

#[test]
fn registry_digest_rejects_unknown_code() {
    let reg = test_registry();
    assert_eq!(
        reg.digest(0x99, b"abc").unwrap_err(),
        Error::UnsupportedCode(0x99)
    );
}

#[test]
fn registry_digest_rejects_identity_overflow() {
    let reg = test_registry();
    let too_much = [0u8; 33];
    assert_eq!(
        reg.digest(IDENTITY, &too_much).unwrap_err(),
        Error::InvalidSize(33)
    );
}

#[test]
fn registry_digest_rejects_digest_over_capacity() {
    // A 64-byte digest does not fit a 32-byte registry; the misconfiguration
    // surfaces as a runtime invalid-size error.
    let reg = Registry::<32>::new(vec![
        RegistryEntry { code: SHA2_512, alg: Algorithm::Sha2_512 },
    ])
    .unwrap();
    assert_eq!(
        reg.digest(SHA2_512, b"abc").unwrap_err(),
        Error::InvalidSize(64)
    );
}

#[test]
fn registry_digests_roundtrip_through_the_wire() {
    let reg = test_registry();
    let codes = [IDENTITY, SHA2_256, SHA2_512, SHA3_512, SHA3_256, KECCAK_256, STROBE_256];
    for &code in codes.iter() {
        let mh = reg.digest(code, b"round and round").unwrap();
        let parsed = Multihash::<64>::from_bytes(&mh.to_bytes()).unwrap();
        assert!(parsed == mh);
        assert_eq!(parsed.code(), code);
    }
}

#[test]
fn end_to_end_truncated_sha2_256() {
    // A 256-bit engine truncated to 160 bits: code 0x12, capacity 64.
    let mut h = Sha2_256Hasher::default();
    h.update(b"hello world!").unwrap();
    let full = h.finalize();
    let mh = Multihash::<64>::wrap(0x12, &full.as_bytes()[..20]).unwrap();
    assert_eq!(mh.size(), 20);

    let bytes = mh.to_bytes();
    assert_eq!(bytes.len(), 1 + 1 + 20);

    let parsed = Multihash::<64>::from_bytes(&bytes).unwrap();
    assert_eq!(parsed.code(), 0x12);
    assert_eq!(parsed.size(), 20);
    assert_eq!(parsed.digest(), &full.as_bytes()[..20]);
}

#[test]
fn end_to_end_identity_tagged_value() {
    // Identity codec, capacity 32, input "abc": actual length 3, and the
    // wire form is one code byte, one length byte, three content bytes.
    let reg = test_registry();
    let mh = reg.digest(IDENTITY, b"abc").unwrap();
    let bytes = mh.to_bytes();
    assert_eq!(bytes.len(), 1 + 1 + 3);
    assert_eq!(bytes, vec![0x00, 0x03, b'a', b'b', b'c']);
}
