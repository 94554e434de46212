//! Little-endian fields of account data, and the two readings of a 64-bit word.

use vstd::bytes::{spec_u128_from_le_bytes, spec_u16_from_le_bytes, spec_u64_from_le_bytes};
use vstd::prelude::*;
use vstd::slice::slice_subrange;

use crate::keys::Pubkey;

verus! {

/// The `u16` stored little-endian at `at`.
pub open spec fn le_u16(data: Seq<u8>, at: int) -> u16 {
    spec_u16_from_le_bytes(data.subrange(at, at + 2))
}

/// The `u64` stored little-endian at `at`.
pub open spec fn le_u64(data: Seq<u8>, at: int) -> u64 {
    spec_u64_from_le_bytes(data.subrange(at, at + 8))
}

/// The `u128` stored little-endian at `at`.
pub open spec fn le_u128(data: Seq<u8>, at: int) -> u128 {
    spec_u128_from_le_bytes(data.subrange(at, at + 16))
}

/// A run of `n` zero bytes.
pub open spec fn zeros(n: nat) -> Seq<u8> {
    Seq::new(n, |i: int| 0u8)
}

/// The 64-bit word whose two's complement reading is `x`.
pub open spec fn word_of(x: i64) -> u64 {
    if x >= 0 {
        x as u64
    } else {
        (x + 0x1_0000_0000_0000_0000) as u64
    }
}

/// The two's complement reading of a 64-bit word.
pub open spec fn signed_of(x: u64) -> i64 {
    if x <= i64::MAX {
        x as i64
    } else {
        (x - 0x1_0000_0000_0000_0000) as i64
    }
}

/// Reading a word as signed and writing it back changes nothing, in either direction.
pub proof fn lemma_word_round_trip(x: u64, y: i64)
    ensures
        word_of(signed_of(x)) == x,
        signed_of(word_of(y)) == y,
{
}

/// The 64-bit word whose two's complement reading is `x`.
pub fn to_word(x: i64) -> (r: u64)
    ensures
        r == word_of(x),
{
    if x >= 0 {
        x as u64
    } else {
        u64::MAX - (-(x + 1)) as u64
    }
}

/// The two's complement reading of a 64-bit word.
pub fn to_signed(x: u64) -> (r: i64)
    ensures
        r == signed_of(x),
{
    if x <= i64::MAX as u64 {
        x as i64
    } else {
        -((u64::MAX - x) as i64) - 1
    }
}

/// Reads the `u16` at `at`.
pub fn u16_at(data: &[u8], at: usize) -> (r: u16)
    requires
        at + 2 <= data@.len(),
    ensures
        r == le_u16(data@, at as int),
{
    assert(data.len() == data@.len());
    vstd::bytes::u16_from_le_bytes(slice_subrange(data, at, at + 2))
}

/// Reads the `u64` at `at`.
pub fn u64_at(data: &[u8], at: usize) -> (r: u64)
    requires
        at + 8 <= data@.len(),
    ensures
        r == le_u64(data@, at as int),
{
    assert(data.len() == data@.len());
    vstd::bytes::u64_from_le_bytes(slice_subrange(data, at, at + 8))
}

/// Reads the `u128` at `at`.
pub fn u128_at(data: &[u8], at: usize) -> (r: u128)
    requires
        at + 16 <= data@.len(),
    ensures
        r == le_u128(data@, at as int),
{
    assert(data.len() == data@.len());
    vstd::bytes::u128_from_le_bytes(slice_subrange(data, at, at + 16))
}

/// Reads the 32-byte key at `at`.
pub fn key_at(data: &[u8], at: usize) -> (r: Pubkey)
    requires
        at + 32 <= data@.len(),
    ensures
        r@ == data@.subrange(at as int, at + 32),
{
    let mut key: Pubkey = [0; 32];
    let mut i: usize = 0;
    while i < 32
        invariant
            i <= 32,
            at + 32 <= data.len() == data@.len(),
            forall|j: int| 0 <= j < i ==> key@[j] == data@[at + j],
        decreases 32 - i,
    {
        key[i] = data[at + i];
        i = i + 1;
    }
    assert(key@ =~= data@.subrange(at as int, at + 32));
    key
}

} // verus!
