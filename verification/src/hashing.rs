//! The hash primitive: 64-bit FNV-1a over a contiguous range of bytes.
//!
//! The digest depends on the bytes alone, so equal content always hashes
//! to the same value, and the empty range hashes to the offset basis.

use vstd::prelude::*;

verus! {

/// The digest of the empty input.
pub const FNV_OFFSET_BASIS: u64 = 0xcbf2_9ce4_8422_2325;

/// The multiplier of every round.
pub const FNV_PRIME: u64 = 0x0000_0100_0000_01b3;

/// One round: the byte is XORed into the low bits of the accumulator, and
/// the result multiplied by the prime modulo 2^64.
pub open spec fn mix(acc: u64, byte: u8) -> u64 {
    (acc ^ (byte as u64)).wrapping_mul(FNV_PRIME)
}

/// The digest of a byte sequence: the rounds run over the bytes from the
/// first to the last, starting from the offset basis.
pub open spec fn digest(data: Seq<u8>) -> crate::Hash
    decreases data.len(),
{
    if data.len() == 0 {
        crate::Hash(FNV_OFFSET_BASIS)
    } else {
        crate::Hash(mix(digest(data.drop_last()).0, data.last()))
    }
}

/// The empty input hashes to the offset basis.
pub proof fn lemma_digest_empty()
    ensures
        digest(Seq::<u8>::empty()) == crate::Hash(FNV_OFFSET_BASIS),
{
}

/// Appending one byte to the input runs one more round on the digest.
pub proof fn lemma_digest_push(data: Seq<u8>, byte: u8)
    ensures
        digest(data.push(byte)).0 == mix(digest(data).0, byte),
{
    assert(data.push(byte).drop_last() == data);
}

/// Hashes a range of bytes.
pub fn hash_memory(data: &[u8]) -> (h: crate::Hash)
    ensures
        h == digest(data@),
{
    let mut acc: u64 = FNV_OFFSET_BASIS;
    let mut i: usize = 0;
    while i < data.len()
        invariant
            i <= data.len(),
            crate::Hash(acc) == digest(data@.take(i as int)),
        decreases data.len() - i,
    {
        proof {
            lemma_digest_push(data@.take(i as int), data@[i as int]);
            assert(data@.take(i as int).push(data@[i as int]) == data@.take(i + 1));
        }
        acc = (acc ^ (data[i] as u64)).wrapping_mul(FNV_PRIME);
        i += 1;
    }
    assert(data@.take(i as int) == data@);
    crate::Hash(acc)
}

} // verus!
