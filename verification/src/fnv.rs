//! The 64-bit FNV-1a hash: small, and the same in every run.

use vstd::prelude::*;
use vstd::utf8::*;

verus! {

/// The hash of nothing.
pub const OFFSET_BASIS: u64 = 0xcbf2_9ce4_8422_2325;

pub const PRIME: u64 = 0x0000_0100_0000_01b3;

/// The hash after one more byte.
pub open spec fn mixed(hash: u64, byte: u8) -> u64 {
    (hash ^ byte as u64).wrapping_mul(PRIME)
}

/// The hash after more bytes.
pub open spec fn hashed(hash: u64, bytes: Seq<u8>) -> u64
    decreases bytes.len(),
{
    if bytes.len() == 0 {
        hash
    } else {
        mixed(hashed(hash, bytes.drop_last()), bytes.last())
    }
}

pub fn mix(hash: u64, byte: u8) -> (r: u64)
    ensures
        r == mixed(hash, byte),
{
    (hash ^ byte as u64).wrapping_mul(PRIME)
}

/// The hash after the bytes of a text.
pub fn mix_text(hash: u64, text: &str) -> (r: u64)
    ensures
        r == hashed(hash, encode_utf8(text@)),
{
    let bytes = text.as_bytes();
    let mut result: u64 = hash;
    for i in 0..bytes.len()
        invariant
            result == hashed(hash, bytes@.take(i as int)),
    {
        result = mix(result, bytes[i]);
        assert(bytes@.take(i + 1).drop_last() == bytes@.take(i as int));
    }
    assert(bytes@.take(bytes@.len() as int) == bytes@);
    result
}

} // verus!
