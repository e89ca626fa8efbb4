//! The kinds of value that may be materialized from raw foreign bytes.
//!
//! Bytes copied out of the target process are untrusted, so only types with a
//! fixed size and no invalid bit patterns may be decoded from them. `MemValue`
//! is that capability: each implementation fixes the byte width of the type
//! and the meaning (little endian) of every possible byte pattern, so a read
//! can never manufacture an invalid value.

use vstd::prelude::*;
use vstd::bytes::spec_u16_from_le_bytes;
use vstd::bytes::spec_u32_from_le_bytes;
use vstd::bytes::spec_u64_from_le_bytes;
use vstd::bytes::u16_from_le_bytes;
use vstd::bytes::u32_from_le_bytes;
use vstd::bytes::u64_from_le_bytes;
use vstd::slice::slice_index_get;

verus! {

/// A fixed-size value type that any pattern of `size_spec()` bytes denotes,
/// so that it is safe to build one out of raw bytes copied from a foreign
/// process. Integers are decoded little endian, matching the byte order the
/// target stores them in.
pub trait MemValue: Sized {
    /// The number of bytes a value of this type occupies in target memory.
    spec fn size_spec() -> nat;

    /// The value denoted by `bytes`, which must be `size_spec()` bytes long.
    spec fn decode_spec(bytes: Seq<u8>) -> Self;

    /// The byte count as an executable value.
    fn byte_size() -> (n: usize)
        ensures
            n as nat == Self::size_spec(),
            1 <= n,
    ;

    /// Builds the value denoted by `bytes`.
    fn decode(bytes: &[u8]) -> (r: Self)
        requires
            bytes@.len() == Self::size_spec(),
        ensures
            r == Self::decode_spec(bytes@),
    ;
}

impl MemValue for u8 {
    open spec fn size_spec() -> nat {
        1
    }

    open spec fn decode_spec(bytes: Seq<u8>) -> u8 {
        bytes[0]
    }

    fn byte_size() -> usize {
        1
    }

    fn decode(bytes: &[u8]) -> u8 {
        *slice_index_get(bytes, 0)
    }
}

impl MemValue for u16 {
    open spec fn size_spec() -> nat {
        2
    }

    open spec fn decode_spec(bytes: Seq<u8>) -> u16 {
        spec_u16_from_le_bytes(bytes)
    }

    fn byte_size() -> usize {
        2
    }

    fn decode(bytes: &[u8]) -> u16 {
        u16_from_le_bytes(bytes)
    }
}

impl MemValue for u32 {
    open spec fn size_spec() -> nat {
        4
    }

    open spec fn decode_spec(bytes: Seq<u8>) -> u32 {
        spec_u32_from_le_bytes(bytes)
    }

    fn byte_size() -> usize {
        4
    }

    fn decode(bytes: &[u8]) -> u32 {
        u32_from_le_bytes(bytes)
    }
}

impl MemValue for u64 {
    open spec fn size_spec() -> nat {
        8
    }

    open spec fn decode_spec(bytes: Seq<u8>) -> u64 {
        spec_u64_from_le_bytes(bytes)
    }

    fn byte_size() -> usize {
        8
    }

    fn decode(bytes: &[u8]) -> u64 {
        u64_from_le_bytes(bytes)
    }
}

impl MemValue for i8 {
    open spec fn size_spec() -> nat {
        1
    }

    open spec fn decode_spec(bytes: Seq<u8>) -> i8 {
        bytes[0] as i8
    }

    fn byte_size() -> usize {
        1
    }

    fn decode(bytes: &[u8]) -> i8 {
        #[verifier::truncate] (*slice_index_get(bytes, 0) as i8)
    }
}

impl MemValue for i16 {
    open spec fn size_spec() -> nat {
        2
    }

    open spec fn decode_spec(bytes: Seq<u8>) -> i16 {
        spec_u16_from_le_bytes(bytes) as i16
    }

    fn byte_size() -> usize {
        2
    }

    fn decode(bytes: &[u8]) -> i16 {
        #[verifier::truncate] (u16_from_le_bytes(bytes) as i16)
    }
}

impl MemValue for i32 {
    open spec fn size_spec() -> nat {
        4
    }

    open spec fn decode_spec(bytes: Seq<u8>) -> i32 {
        spec_u32_from_le_bytes(bytes) as i32
    }

    fn byte_size() -> usize {
        4
    }

    fn decode(bytes: &[u8]) -> i32 {
        #[verifier::truncate] (u32_from_le_bytes(bytes) as i32)
    }
}

impl MemValue for i64 {
    open spec fn size_spec() -> nat {
        8
    }

    open spec fn decode_spec(bytes: Seq<u8>) -> i64 {
        spec_u64_from_le_bytes(bytes) as i64
    }

    fn byte_size() -> usize {
        8
    }

    fn decode(bytes: &[u8]) -> i64 {
        #[verifier::truncate] (u64_from_le_bytes(bytes) as i64)
    }
}

} // verus!
