//! Failure values for digest, hasher and wire-format operations.

use vstd::prelude::*;

verus! {

/// Why an operation on digests, hashers or tagged values failed.
///
/// Every failure is reported as an explicit value of this type; no operation
/// panics on bad input and none swallows an error.
#[derive(Clone, Copy, Debug, PartialEq, Eq, Structural)]
pub enum Error {
    /// A numeric code has no registered hasher bound to it.
    UnsupportedCode(u64),
    /// A digest, buffer or declared wire length exceeds its configured
    /// capacity, or does not match an exact-length constructor.
    InvalidSize(u64),
    /// A byte sequence ended before the declared length was satisfied, or a
    /// varint was malformed.
    Truncated,
    /// The byte source feeding a length-prefixed read failed.
    IoFailure,
}

} // verus!
