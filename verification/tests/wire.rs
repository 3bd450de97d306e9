//! Wire-format behaviour: varints, tagged-value encode and decode, and the
//! failure modes of both.

use tiny_multihash::error::Error;
use tiny_multihash::multihash::Multihash;
use tiny_multihash::varint::{read_varint, write_varint};

fn varint_bytes(n: u64) -> Vec<u8> {
    let mut out = Vec::new();
    write_varint(n, &mut out);
    out
}

#[test]
fn varint_single_byte_values() {
    assert_eq!(varint_bytes(0), vec![0x00]);
    assert_eq!(varint_bytes(0x12), vec![0x12]);
    assert_eq!(varint_bytes(127), vec![0x7f]);
}

#[test]
fn varint_multi_byte_values() {
    assert_eq!(varint_bytes(128), vec![0x80, 0x01]);
    assert_eq!(varint_bytes(300), vec![0xac, 0x02]);
    assert_eq!(varint_bytes(0x38b64f), vec![0xcf, 0xec, 0xe2, 0x01]);
}

#[test]
fn varint_roundtrip_many() {
    let values = [
        0u64,
        1,
        127,
        128,
        255,
        300,
        16384,
        0x12,
        0x38b64f,
        u64::MAX - 1,
        u64::MAX,
    ];
    for &v in values.iter() {
        let bytes = varint_bytes(v);
        let (parsed, used) = read_varint(&bytes, 0).unwrap();
        assert_eq!(parsed, v);
        assert_eq!(used, bytes.len());
    }
}

#[test]
fn varint_rejects_truncated() {
    assert_eq!(read_varint(&[0x80], 0), Err(Error::Truncated));
    assert_eq!(read_varint(&[], 0), Err(Error::Truncated));
    assert_eq!(read_varint(&[0xff, 0xff], 0), Err(Error::Truncated));
}

#[test]
fn varint_rejects_non_minimal() {
    // 0x80 0x00 would decode to 0, whose minimal encoding is the single
    // byte 0x00.
    assert_eq!(read_varint(&[0x80, 0x00], 0), Err(Error::Truncated));
    assert_eq!(read_varint(&[0xff, 0x80, 0x00], 0), Err(Error::Truncated));
}

#[test]
fn varint_rejects_overlong() {
    // Eleven continuation groups overflow a u64.
    let bytes = vec![0xff, 0xff, 0xff, 0xff, 0xff, 0xff, 0xff, 0xff, 0xff, 0xff, 0x01];
    assert_eq!(read_varint(&bytes, 0), Err(Error::Truncated));
}

#[test]
fn varint_reads_at_offset() {
    let bytes = vec![0x07, 0xac, 0x02];
    assert_eq!(read_varint(&bytes, 0), Ok((7, 1)));
    assert_eq!(read_varint(&bytes, 1), Ok((300, 3)));
}

#[test]
fn wrap_stores_code_size_and_bytes() {
    let mh = Multihash::<64>::wrap(0x12, &[1, 2, 3, 4]).unwrap();
    assert_eq!(mh.code(), 0x12);
    assert_eq!(mh.size(), 4);
    assert_eq!(mh.digest(), &[1, 2, 3, 4]);
}

#[test]
fn wrap_rejects_digest_longer_than_capacity() {
    let too_long = vec![0u8; 65];
    assert_eq!(
        Multihash::<64>::wrap(0x12, &too_long),
        Err(Error::InvalidSize(65))
    );
    let way_too_long = vec![7u8; 300];
    assert_eq!(
        Multihash::<512>::wrap(0x12, &way_too_long),
        Err(Error::InvalidSize(300))
    );
}

#[test]
fn to_bytes_is_code_length_digest() {
    let mh = Multihash::<64>::wrap(0x12, &[0xaa, 0xbb, 0xcc]).unwrap();
    assert_eq!(mh.to_bytes(), vec![0x12, 0x03, 0xaa, 0xbb, 0xcc]);

    // A multi-byte code varint is emitted least significant group first.
    let mh = Multihash::<64>::wrap(0x38b64f, &[0x01]).unwrap();
    assert_eq!(mh.to_bytes(), vec![0xcf, 0xec, 0xe2, 0x01, 0x01, 0x01]);
}

#[test]
fn roundtrip_preserves_all_fields() {
    let codes = [0u64, 0x12, 0x13, 0x38b64f, u64::MAX];
    for &code in codes.iter() {
        for len in [0usize, 1, 20, 32, 64].iter().copied() {
            let digest: Vec<u8> = (0..len).map(|i| (i * 7 + 3) as u8).collect();
            let mh = Multihash::<64>::wrap(code, &digest).unwrap();
            let parsed = Multihash::<64>::from_bytes(&mh.to_bytes()).unwrap();
            assert_eq!(parsed.code(), code);
            assert_eq!(parsed.size() as usize, len);
            assert_eq!(parsed.digest(), &digest[..]);
            assert!(parsed == mh);
        }
    }
}

#[test]
fn from_bytes_ignores_trailing_bytes() {
    let mut bytes = Multihash::<64>::wrap(0x12, &[9, 8, 7]).unwrap().to_bytes();
    bytes.push(0xee);
    bytes.push(0xff);
    let parsed = Multihash::<64>::from_bytes(&bytes).unwrap();
    assert_eq!(parsed.code(), 0x12);
    assert_eq!(parsed.digest(), &[9, 8, 7]);
}

#[test]
fn from_bytes_rejects_length_over_capacity() {
    // Declared length 40 exceeds the capacity 32, whatever follows.
    let mut bytes = vec![0x12, 40];
    bytes.extend(std::iter::repeat(0u8).take(40));
    assert_eq!(
        Multihash::<32>::from_bytes(&bytes),
        Err(Error::InvalidSize(40))
    );
}

#[test]
fn from_bytes_rejects_truncated_digest() {
    // Declares 40 digest bytes but supplies only 10.
    let mut bytes = vec![0x12, 40];
    bytes.extend(std::iter::repeat(0xabu8).take(10));
    assert_eq!(Multihash::<64>::from_bytes(&bytes), Err(Error::Truncated));
}

#[test]
fn from_bytes_rejects_malformed_varint() {
    assert_eq!(Multihash::<64>::from_bytes(&[]), Err(Error::Truncated));
    assert_eq!(Multihash::<64>::from_bytes(&[0x80]), Err(Error::Truncated));
    // Code parses, the length varint is cut short.
    assert_eq!(Multihash::<64>::from_bytes(&[0x12, 0x80]), Err(Error::Truncated));
}

#[test]
fn equality_is_exact_on_all_fields() {
    let a = Multihash::<64>::wrap(0x12, &[1, 2, 3]).unwrap();
    let b = Multihash::<64>::wrap(0x12, &[1, 2, 3]).unwrap();
    let c = Multihash::<64>::wrap(0x13, &[1, 2, 3]).unwrap();
    let d = Multihash::<64>::wrap(0x12, &[1, 2, 4]).unwrap();
    let e = Multihash::<64>::wrap(0x12, &[1, 2]).unwrap();
    assert!(a == b);
    assert!(a != c);
    assert!(a != d);
    assert!(a != e);
}
