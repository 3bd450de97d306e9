//! The hash engines behind the uniform interface: known vectors, finalize
//! idempotence, reset isolation, chunked input, and the identity codec's
//! exactness and overflow behaviour.

use tiny_multihash::digest::Digest;
use tiny_multihash::error::Error;
use tiny_multihash::hasher::StatefulHasher;
use tiny_multihash::identity::{Identity256, IdentityDigest, IdentityHasher};
use tiny_multihash::sha2::{Sha2_256, Sha2_512};
use tiny_multihash::sha3::{
    Keccak224, Keccak256, Keccak384, Keccak512, Sha3_224, Sha3_256, Sha3_384, Sha3_512,
};
use tiny_multihash::strobe::{Strobe256, Strobe512};

use sha3::Digest as RefDigest;

fn hex(s: &str) -> Vec<u8> {
    assert!(s.len() % 2 == 0);
    (0..s.len() / 2)
        .map(|i| u8::from_str_radix(&s[2 * i..2 * i + 2], 16).unwrap())
        .collect()
}

#[test]
fn sha2_256_known_vector() {
    let mut h = Sha2_256::default();
    h.update(b"abc").unwrap();
    let d = h.finalize();
    assert_eq!(
        d.as_bytes(),
        &hex("ba7816bf8f01cfea414140de5dae2223b00361a396177a9cb410ff61f20015ad")[..]
    );
}

#[test]
fn sha2_512_known_vector() {
    let mut h = Sha2_512::default();
    h.update(b"abc").unwrap();
    let d = h.finalize();
    assert_eq!(
        d.as_bytes(),
        &hex(
            "ddaf35a193617abacc417349ae20413112e6fa4e89a97ea20a9eeee64b55d39a\
             2192992a274fc1a836ba3c23a3feebbd454d4423643ce80e2a9ac94fa54ca49f"
        )[..]
    );
}

#[test]
fn sha3_known_vectors() {
    let mut h = Sha3_224::default();
    h.update(b"abc").unwrap();
    assert_eq!(
        h.finalize().as_bytes(),
        &hex("e642824c3f8cf24ad09234ee7d3c766fc9a3a5168d0c94ad73b46fdf")[..]
    );

    let mut h = Sha3_256::default();
    h.update(b"abc").unwrap();
    assert_eq!(
        h.finalize().as_bytes(),
        &hex("3a985da74fe225b2045c172d6bd390bd855f086e3e9d525b46bfe24511431532")[..]
    );

    let mut h = Sha3_384::default();
    h.update(b"abc").unwrap();
    assert_eq!(
        h.finalize().as_bytes(),
        &hex(
            "ec01498288516fc926459f58e2c6ad8df9b473cb0fc08c2596da7cf0e49be4b2\
             98d88cea927ac7f539f1edf228376d25"
        )[..]
    );

    let mut h = Sha3_512::default();
    h.update(b"abc").unwrap();
    assert_eq!(
        h.finalize().as_bytes(),
        &hex(
            "b751850b1a57168a5693cd924b6b096e08f621827444f70d884f5d0240d2712e\
             10e116e9192af3c91a7ec57647e3934057340b4cf408d5a56592f8274eec53f0"
        )[..]
    );
}

#[test]
fn keccak_matches_reference_implementation() {
    let mut h = Keccak224::default();
    h.update(b"abc").unwrap();
    assert_eq!(h.finalize().as_bytes(), &sha3::Keccak224::digest(b"abc")[..]);

    let mut h = Keccak256::default();
    h.update(b"abc").unwrap();
    assert_eq!(h.finalize().as_bytes(), &sha3::Keccak256::digest(b"abc")[..]);

    let mut h = Keccak384::default();
    h.update(b"abc").unwrap();
    assert_eq!(h.finalize().as_bytes(), &sha3::Keccak384::digest(b"abc")[..]);

    let mut h = Keccak512::default();
    h.update(b"abc").unwrap();
    assert_eq!(h.finalize().as_bytes(), &sha3::Keccak512::digest(b"abc")[..]);
}

#[test]
fn chunked_input_equals_whole_input() {
    let mut whole = Sha2_256::default();
    whole.update(b"hello world!").unwrap();

    let mut chunked = Sha2_256::default();
    chunked.update(b"hello ").unwrap();
    chunked.update(b"world").unwrap();
    chunked.update(b"!").unwrap();

    assert!(whole.finalize() == chunked.finalize());

    let mut whole = Strobe256::default();
    whole.update(b"hello world!").unwrap();
    let mut chunked = Strobe256::default();
    chunked.update(b"hello ").unwrap();
    chunked.update(b"world!").unwrap();
    assert!(whole.finalize() == chunked.finalize());
}

#[test]
fn finalize_is_idempotent() {
    let mut h = Sha2_256::default();
    h.update(b"some input").unwrap();
    assert!(h.finalize() == h.finalize());

    let mut h = Strobe512::default();
    h.update(b"some input").unwrap();
    assert!(h.finalize() == h.finalize());

    let mut h = Identity256::default();
    h.update(b"some input").unwrap();
    assert!(h.finalize() == h.finalize());

    // Never-updated hashers have a well-defined digest too.
    let h = Strobe256::default();
    assert!(h.finalize() == h.finalize());
}

#[test]
fn reset_isolates_from_prior_history() {
    let mut used = Sha2_256::default();
    used.update(b"a long and irrelevant prior history").unwrap();
    used.finalize();
    used.reset();
    used.update(b"abc").unwrap();

    let mut fresh = Sha2_256::default();
    fresh.update(b"abc").unwrap();
    assert!(used.finalize() == fresh.finalize());

    let mut used = Strobe256::default();
    used.update(b"other data first").unwrap();
    used.reset();
    used.update(b"abc").unwrap();
    let mut fresh = Strobe256::default();
    fresh.update(b"abc").unwrap();
    assert!(used.finalize() == fresh.finalize());

    let mut used = Identity256::default();
    used.update(b"previous content").unwrap();
    used.reset();
    used.update(b"abc").unwrap();
    let mut fresh = Identity256::default();
    fresh.update(b"abc").unwrap();
    assert!(used.finalize() == fresh.finalize());
}

#[test]
fn strobe_output_is_not_the_input() {
    let input = [0u8; 32];
    let mut h = Strobe256::default();
    h.update(&input).unwrap();
    let d = h.finalize();
    assert_eq!(d.as_bytes().len(), 32);
    assert_ne!(d.as_bytes(), &input[..]);

    let mut h = Strobe512::default();
    h.update(b"abc").unwrap();
    assert_eq!(h.finalize().as_bytes().len(), 64);
}

#[test]
fn identity_digest_is_the_input_with_exact_length() {
    let mut h: IdentityHasher<32> = IdentityHasher::default();
    h.update(b"abc").unwrap();
    let d = h.finalize();
    assert_eq!(d.size(), 3);
    assert_eq!(d.as_bytes(), &b"abc"[..]);
}

#[test]
fn identity_update_overflow_is_an_error_not_a_panic() {
    let mut h: IdentityHasher<32> = IdentityHasher::default();
    let too_much = [7u8; 33];
    assert_eq!(h.update(&too_much), Err(Error::InvalidSize(33)));

    // A failed update leaves the accumulated state unchanged.
    let mut h: IdentityHasher<32> = IdentityHasher::default();
    h.update(&[1u8; 30]).unwrap();
    assert_eq!(h.update(&[2u8; 3]), Err(Error::InvalidSize(33)));
    let d = h.finalize();
    assert_eq!(d.size(), 30);
    assert_eq!(d.as_bytes(), &[1u8; 30][..]);

    // Exactly filling the capacity still succeeds.
    let mut h: IdentityHasher<32> = IdentityHasher::default();
    h.update(&[9u8; 32]).unwrap();
    assert_eq!(h.finalize().size(), 32);
}

#[test]
fn identity_digest_wrap_and_fit() {
    let d = IdentityDigest::<32>::wrap(b"abc").unwrap();
    assert_eq!(d.size(), 3);
    assert_eq!(d.as_bytes(), &b"abc"[..]);

    let over = [1u8; 33];
    assert_eq!(IdentityDigest::<32>::wrap(&over), Err(Error::InvalidSize(33)));

    let d = IdentityDigest::<4>::fit(b"abcdefgh");
    assert_eq!(d.size(), 4);
    assert_eq!(d.as_bytes(), &b"abcd"[..]);

    let d = IdentityDigest::<8>::fit(b"xy");
    assert_eq!(d.size(), 2);
    assert_eq!(d.as_bytes(), &b"xy"[..]);
}

#[test]
fn identity_digest_equality_tracks_content_and_length() {
    let a = IdentityDigest::<32>::wrap(b"abc").unwrap();
    let b = IdentityDigest::<32>::wrap(b"abc").unwrap();
    let c = IdentityDigest::<32>::wrap(b"abd").unwrap();
    let d = IdentityDigest::<32>::wrap(b"ab").unwrap();
    assert!(a == b);
    assert!(a != c);
    assert!(a != d);
}

#[test]
fn identity_decode_length_prefixed() {
    // Declared length 3, content "abc", then trailing bytes.
    let bytes = [3u8, b'a', b'b', b'c', 0xee, 0xff];
    let (d, used) = IdentityDigest::<32>::decode_length_prefixed(&bytes).unwrap();
    assert_eq!(used, 4);
    assert_eq!(d.size(), 3);
    assert_eq!(d.as_bytes(), &b"abc"[..]);

    // A declared length over the capacity is an invalid size...
    let bytes = [40u8, 0, 0];
    assert_eq!(
        IdentityDigest::<32>::decode_length_prefixed(&bytes),
        Err(Error::InvalidSize(40))
    );

    // ...and over 255 as well, whatever the capacity.
    let mut long = Vec::new();
    tiny_multihash::varint::write_varint(300, &mut long);
    long.extend(std::iter::repeat(0u8).take(300));
    assert_eq!(
        IdentityDigest::<512>::decode_length_prefixed(&long),
        Err(Error::InvalidSize(300))
    );

    // Fewer content bytes than declared.
    let bytes = [10u8, 1, 2, 3];
    assert_eq!(
        IdentityDigest::<32>::decode_length_prefixed(&bytes),
        Err(Error::Truncated)
    );
}

#[test]
fn digest_container_wrap_and_fit() {
    let bytes = [5u8; 32];
    let d = Digest::<32>::wrap(&bytes).unwrap();
    assert_eq!(d.as_bytes(), &bytes[..]);
    assert_eq!(d.size(), 32);

    assert_eq!(Digest::<32>::wrap(&[0u8; 31]), Err(Error::InvalidSize(31)));
    assert_eq!(Digest::<32>::wrap(&[0u8; 33]), Err(Error::InvalidSize(33)));

    // `fit` truncates long input and zero-fills short input.
    let d = Digest::<4>::fit(&[1, 2, 3, 4, 5, 6]);
    assert_eq!(d.as_bytes(), &[1, 2, 3, 4]);
    let d = Digest::<4>::fit(&[9]);
    assert_eq!(d.as_bytes(), &[9, 0, 0, 0]);
}
