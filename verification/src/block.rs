//! Proofs that are scoped to one storage block.

use vstd::prelude::*;
use crate::hashing::{digest, hash_memory};

verus! {

/// A statement that the chain moved from `prev_state` to `new_state` by
/// folding in the hash of one block's content.
#[derive(Clone, Copy, Debug, PartialEq, Eq, Structural)]
pub struct BlockOperationProof {
    pub block_num: u64,
    /// The digest of the block's content when the proof was made.
    pub block_hash: crate::Hash,
    pub prev_state: crate::Hash,
    pub new_state: crate::Hash,
    /// The reading of the monotonic clock when the proof was made. No check
    /// reads it.
    pub timestamp: u64,
}

impl BlockOperationProof {
    /// The proof for a block with content `block_data`, made at chain state
    /// `prev_state`.
    pub open spec fn spec_new(
        block_num: u64,
        block_data: Seq<u8>,
        prev_state: crate::Hash,
        timestamp: u64,
    ) -> BlockOperationProof {
        BlockOperationProof {
            block_num,
            block_hash: digest(block_data),
            prev_state,
            new_state: prev_state.combine(digest(block_data)),
            timestamp,
        }
    }

    /// The new state is the previous state combined with the block's hash.
    pub open spec fn well_formed(&self) -> bool {
        self.new_state == self.prev_state.combine(self.block_hash)
    }

    /// Whether `block_data` hashes to the proof's block hash.
    pub open spec fn spec_verify(&self, block_data: Seq<u8>) -> bool {
        digest(block_data) == self.block_hash
    }

    /// Makes the proof for a block: hashes `block_data` and folds the hash
    /// into `prev_state`. `timestamp` is the caller's reading of the
    /// monotonic clock.
    pub fn new(block_num: u64, block_data: &[u8], prev_state: crate::Hash, timestamp: u64) -> (proof:
        Self)
        ensures
            proof == Self::spec_new(block_num, block_data@, prev_state, timestamp),
            proof.well_formed(),
            proof.spec_verify(block_data@),
    {
        let block_hash = hash_memory(block_data);
        BlockOperationProof {
            block_num,
            block_hash,
            prev_state,
            new_state: prev_state.combine(block_hash),
            timestamp,
        }
    }

    /// Hashes `block_data` anew and compares the digest with the proof's
    /// block hash.
    pub fn verify(&self, block_data: &[u8]) -> (ok: bool)
        ensures
            ok == self.spec_verify(block_data@),
    {
        let current_hash = hash_memory(block_data);
        current_hash == self.block_hash
    }
}

/// A proof made for a block verifies against that block's content, the
/// empty block included.
pub proof fn lemma_round_trip(
    block_num: u64,
    block_data: Seq<u8>,
    prev_state: crate::Hash,
    timestamp: u64,
)
    ensures
        BlockOperationProof::spec_new(block_num, block_data, prev_state, timestamp).spec_verify(
            block_data,
        ),
{
}

/// A proof made for one content verifies against another content exactly
/// when the two have the same digest. So content with a different digest
/// is always detected.
pub proof fn lemma_tamper_detected(
    block_num: u64,
    block_data: Seq<u8>,
    other_data: Seq<u8>,
    prev_state: crate::Hash,
    timestamp: u64,
)
    ensures
        BlockOperationProof::spec_new(block_num, block_data, prev_state, timestamp).spec_verify(
            other_data,
        ) <==> digest(other_data) == digest(block_data),
{
}

} // verus!
