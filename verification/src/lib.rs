//! Operation proofs over an XOR hash chain.
//!
//! A subsystem that changes state emits a proof of the change: a record that
//! brackets the transition between two chain states. The authority that owns
//! the running chain state checks such a record against its own state, against
//! the content the record speaks of, and, for signed records, against a
//! signature verifier.
//!
//! The chain folds content hashes into its state with bitwise XOR. That
//! operation is commutative and cancels itself, so the chain head records
//! which operations were applied an odd number of times and nothing of
//! their order.

use vstd::prelude::*;

pub mod authority;
pub mod block;
pub mod chain;
pub mod encoding;
pub mod hashing;
pub mod record;
pub mod signature;

pub use authority::{verify_operation, BlockCache, ProofVerifier, Superblock};
pub use block::BlockOperationProof;
pub use chain::{check_block, check_hash_chain, check_operation, derive_hash, generate_block};
pub use encoding::canonical_bytes;
pub use hashing::hash_memory;
pub use record::{
    BootProof, FSOpType, FSProof, MemoryProof, OperationProof, ProcessProof, ProofData, TileProof,
    VerificationError,
};
pub use signature::{verify_signature, SignatureVerifier};

verus! {

/// A 64-bit digest, and a state of the hash chain.
#[derive(Clone, Copy, Debug, PartialEq, Eq, Structural)]
pub struct Hash(pub u64);

impl Hash {
    /// The chain's combine operation: bitwise XOR.
    pub open spec fn spec_combine(self, other: Hash) -> Hash {
        Hash(self.0 ^ other.0)
    }

    /// The bitwise complement, the sentinel that marks an erasure.
    pub open spec fn spec_complement(self) -> Hash {
        Hash(!self.0)
    }

    /// Folds `other` into `self`.
    #[verifier::when_used_as_spec(spec_combine)]
    pub fn combine(self, other: Hash) -> (next: Hash)
        ensures
            next == self.spec_combine(other),
    {
        Hash(self.0 ^ other.0)
    }

    /// Flips every bit.
    #[verifier::when_used_as_spec(spec_complement)]
    pub fn complement(self) -> (flipped: Hash)
        ensures
            flipped == self.spec_complement(),
    {
        Hash(!self.0)
    }
}

/// Combine is commutative.
pub proof fn lemma_combine_commutative(a: Hash, b: Hash)
    ensures
        a.combine(b) == b.combine(a),
{
    let x = a.0;
    let y = b.0;
    assert(x ^ y == y ^ x) by (bit_vector);
}

/// Combine is associative.
pub proof fn lemma_combine_associative(a: Hash, b: Hash, c: Hash)
    ensures
        a.combine(b).combine(c) == a.combine(b.combine(c)),
{
    let x = a.0;
    let y = b.0;
    let z = c.0;
    assert((x ^ y) ^ z == x ^ (y ^ z)) by (bit_vector);
}

/// A hash combined with itself is zero, and zero is the identity of combine.
pub proof fn lemma_combine_self_inverse(a: Hash)
    ensures
        a.combine(a) == Hash(0),
        a.combine(Hash(0)) == a,
        Hash(0).combine(a) == a,
{
    let x = a.0;
    assert(x ^ x == 0) by (bit_vector);
    assert(x ^ 0 == x) by (bit_vector);
    assert(0 ^ x == x) by (bit_vector);
}

/// Folding the same hash in twice gives the state back.
pub proof fn lemma_combine_cancels(state: Hash, a: Hash)
    ensures
        state.combine(a).combine(a) == state,
{
    let x = state.0;
    let y = a.0;
    assert((x ^ y) ^ y == x) by (bit_vector);
}

/// The chain head does not tell in which order two hashes were folded in.
pub proof fn lemma_fold_order_irrelevant(state: Hash, a: Hash, b: Hash)
    ensures
        state.combine(a).combine(b) == state.combine(b).combine(a),
{
    let x = state.0;
    let y = a.0;
    let z = b.0;
    assert((x ^ y) ^ z == (x ^ z) ^ y) by (bit_vector);
}

/// From a state and its successor the folded hash is recovered, and
/// conversely: `prev` combined with `h` is `next` exactly when `prev`
/// combined with `next` is `h`.
pub proof fn lemma_combine_solves(prev: Hash, h: Hash, next: Hash)
    ensures
        (prev.combine(h) == next) <==> (prev.combine(next) == h),
{
    let x = prev.0;
    let y = h.0;
    let z = next.0;
    assert((x ^ y == z) <==> (x ^ z == y)) by (bit_vector);
}

/// A hash never equals its own complement.
pub proof fn lemma_complement_differs(a: Hash)
    ensures
        a.complement() != a,
        a.complement().complement() == a,
{
    let x = a.0;
    assert(!x != x) by (bit_vector);
    assert(!(!x) == x) by (bit_vector);
}

} // verus!
