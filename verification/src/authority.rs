//! The authority: the owner of the running chain state and of the block
//! cache, and the checks it offers to whoever holds a reference to it.

use std::collections::HashMap;
use vstd::prelude::*;
use crate::block::BlockOperationProof;
use crate::chain::{
    block_verdict,
    check_block,
    check_hash_chain,
    check_operation,
    generate_block,
    generated_proof,
    hash_chain_verdict,
    operation_verdict,
};
use crate::record::{OperationProof, OperationProofView, VerificationError};
use crate::signature::{signature_answer, verify_signature, SignatureVerifier};

verus! {

/// What a map of blocks holds for a block number.
pub open spec fn lookup(blocks: Map<u64, Seq<u8>>, block_num: u64) -> Option<Seq<u8>> {
    if blocks.contains_key(block_num) {
        Some(blocks[block_num])
    } else {
        None
    }
}

/// The content of storage blocks, by block number. Its view is the map
/// from the numbers of the blocks it holds to their bytes.
pub struct BlockCache {
    blocks: HashMap<u64, Vec<u8>>,
}

impl View for BlockCache {
    type V = Map<u64, Seq<u8>>;

    closed spec fn view(&self) -> Map<u64, Seq<u8>> {
        self.blocks@.map_values(|data: Vec<u8>| data@)
    }
}

impl BlockCache {
    /// A cache that holds no block.
    pub fn new() -> (cache: Self)
        ensures
            cache@ == Map::<u64, Seq<u8>>::empty(),
    {
        let cache = BlockCache { blocks: HashMap::new() };
        assert(cache@ =~= Map::<u64, Seq<u8>>::empty());
        cache
    }

    /// Sets the content of a block, in place of what was held for it.
    pub fn insert(&mut self, block_num: u64, data: Vec<u8>)
        ensures
            final(self)@ == old(self)@.insert(block_num, data@),
    {
        self.blocks.insert(block_num, data);
        assert(self@ =~= old(self)@.insert(block_num, data@));
    }

    /// A copy of the content of a block, if the block is held. The copy
    /// is the caller's own: the cache is not needed again to read it.
    pub fn get_block(&self, block_num: u64) -> (block: Option<Vec<u8>>)
        ensures
            match block {
                Some(data) => lookup(self@, block_num) == Some(data@),
                None => lookup(self@, block_num) is None,
            },
    {
        match self.blocks.get(&block_num) {
            Some(data) => {
                let copy = data.clone();
                assert(copy@ =~= data@);
                Some(copy)
            },
            None => None,
        }
    }
}

/// Checks an operation proof at chain state `current_state`: the proof
/// must quote that state, `verifier` must accept its signature, and its
/// transition must hold. The verifier is asked only about a proof that
/// quotes `current_state`, and its answer is taken as it is.
pub fn verify_operation<V: SignatureVerifier>(
    proof: &OperationProof,
    current_state: crate::Hash,
    verifier: &V,
) -> (r: Result<bool, VerificationError>)
    ensures
        proof@.prev_state != current_state ==> r == Ok::<bool, VerificationError>(false),
        proof@.prev_state == current_state ==> exists|ok: bool|
            #[trigger] signature_answer(verifier, proof@, ok) && r == operation_verdict(
                proof@,
                current_state,
                ok,
            ),
{
    if proof.prev_state != current_state {
        return Ok(false);
    }
    let signature_ok = verify_signature(proof, verifier);
    check_operation(proof, current_state, signature_ok)
}

/// The checks that an authority offers. A caller needs a reference to the
/// authority and nothing else.
///
/// An answer of `Ok(false)` says that the proof was checked and does not
/// hold. An error says that it could not be checked.
pub trait ProofVerifier {
    /// The chain state that the authority holds.
    spec fn chain_state(&self) -> crate::Hash;

    /// The content that the authority holds for a block, if any.
    spec fn held_block(&self, block_num: u64) -> Option<Seq<u8>>;

    /// `ok` is an answer that the authority's signature verifier may give
    /// on the proof's canonical encoding and signature.
    spec fn verifier_answers(&self, proof: OperationProofView, ok: bool) -> bool;

    /// Checks a signed proof against the current chain state: the proof
    /// must quote that state, its signature must be accepted, and its
    /// transition must hold. The signature verifier is asked only about a
    /// proof that quotes the current state.
    ///
    /// The result is the verdict on the proof, the chain state and the
    /// verifier's answer. So a proof that the verifier does not accept is
    /// rejected whatever else holds of it, and a proof of another variant
    /// than the filesystem one is an error only if it quotes the current
    /// state and the verifier accepts it.
    fn verify_operation_proof(&self, proof: &OperationProof) -> (r: Result<bool, VerificationError>)
        ensures
            proof@.prev_state != self.chain_state() ==> r == Ok::<bool, VerificationError>(false),
            proof@.prev_state == self.chain_state() ==> exists|ok: bool|
                #[trigger] self.verifier_answers(proof@, ok) && r == operation_verdict(
                    proof@,
                    self.chain_state(),
                    ok,
                ),
            !self.verifier_answers(proof@, true) ==> r == Ok::<bool, VerificationError>(false),
            !(proof@.data is Filesystem) && proof@.prev_state == self.chain_state()
                && !self.verifier_answers(proof@, false) ==> r == Err::<bool, VerificationError>(
                VerificationError::InvalidProof,
            ),
    ;

    /// Checks a block proof against the block that the authority holds
    /// and the current chain state.
    fn verify_block_proof(&self, proof: &BlockOperationProof) -> (r: Result<
        bool,
        VerificationError,
    >)
        ensures
            r == block_verdict(*proof, self.held_block(proof.block_num), self.chain_state()),
    ;

    /// Makes a proof for a block that the authority holds, at the current
    /// chain state. `timestamp` is the caller's reading of the monotonic
    /// clock.
    fn generate_block_proof(&self, block_num: u64, timestamp: u64) -> (r: Result<
        BlockOperationProof,
        VerificationError,
    >)
        ensures
            r == generated_proof(
                block_num,
                self.held_block(block_num),
                self.chain_state(),
                timestamp,
            ),
    ;

    /// Checks a filesystem proof against itself alone. The authority's
    /// state is not consulted.
    fn verify_hash_chain(&self, proof: &OperationProof) -> (r: Result<bool, VerificationError>)
        ensures
            r == hash_chain_verdict(proof@),
    ;
}

/// The authority: the running chain state, the block cache, and the
/// signature verifier that it was given.
pub struct Superblock<V: SignatureVerifier> {
    pub state: crate::Hash,
    pub block_cache: BlockCache,
    pub verifier: V,
}

impl<V: SignatureVerifier> Superblock<V> {
    /// An authority at chain state `state` that holds no block.
    pub fn new(state: crate::Hash, verifier: V) -> (authority: Self)
        ensures
            authority.state == state,
            authority.block_cache@ == Map::<u64, Seq<u8>>::empty(),
            authority.verifier == verifier,
    {
        Superblock { state, block_cache: BlockCache::new(), verifier }
    }

    /// The current chain state.
    pub fn state_hash(&self) -> (h: crate::Hash)
        ensures
            h == self.state,
    {
        self.state
    }
}

impl<V: SignatureVerifier> ProofVerifier for Superblock<V> {
    open spec fn chain_state(&self) -> crate::Hash {
        self.state
    }

    open spec fn held_block(&self, block_num: u64) -> Option<Seq<u8>> {
        lookup(self.block_cache@, block_num)
    }

    open spec fn verifier_answers(&self, proof: OperationProofView, ok: bool) -> bool {
        signature_answer(&self.verifier, proof, ok)
    }

    fn verify_operation_proof(&self, proof: &OperationProof) -> (r: Result<
        bool,
        VerificationError,
    >) {
        let r = verify_operation(proof, self.state_hash(), &self.verifier);
        proof {
            if proof@.prev_state == self.state {
                let ok = choose|ok: bool|
                    #[trigger] signature_answer(&self.verifier, proof@, ok) && r
                        == operation_verdict(proof@, self.state, ok);
                assert(self.verifier_answers(proof@, ok));
            }
        }
        r
    }

    fn verify_block_proof(&self, proof: &BlockOperationProof) -> (r: Result<
        bool,
        VerificationError,
    >) {
        let block = self.block_cache.get_block(proof.block_num);
        check_block(proof, as_bytes(&block), self.state_hash())
    }

    fn generate_block_proof(&self, block_num: u64, timestamp: u64) -> (r: Result<
        BlockOperationProof,
        VerificationError,
    >) {
        let block = self.block_cache.get_block(block_num);
        generate_block(block_num, as_bytes(&block), self.state_hash(), timestamp)
    }

    fn verify_hash_chain(&self, proof: &OperationProof) -> (r: Result<bool, VerificationError>) {
        check_hash_chain(proof)
    }
}

/// Borrows the bytes of a block that was looked up.
fn as_bytes(block: &Option<Vec<u8>>) -> (bytes: Option<&[u8]>)
    ensures
        match bytes {
            Some(block_data) => block matches Some(data) && block_data@ == data@,
            None => block is None,
        },
{
    match block {
        Some(data) => Some(data.as_slice()),
        None => None,
    }
}

} // verus!
