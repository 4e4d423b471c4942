//! The hash-chain rules: which hash an operation contributes, and when a
//! proof's claimed transition is consistent with the chain.
//!
//! Every check here is a function of plain values. Whoever owns the chain
//! state and the blocks reads them first and hands them in.

use vstd::prelude::*;
use crate::block::BlockOperationProof;
use crate::hashing::{digest, hash_memory};
use crate::record::{
    FSOpType,
    FSProof,
    FSProofView,
    OperationProof,
    OperationProofView,
    ProofData,
    ProofDataView,
    VerificationError,
};

verus! {

/// The hash that a filesystem operation contributes when it is checked
/// against the chain state `current`.
///
/// Creating and modifying contribute the digest of the path's bytes.
/// Deleting contributes the complement of `current`: a sentinel that marks
/// an erasure and depends on the state at the time of the check, not on
/// the operation alone.
pub open spec fn derived_hash(fs: FSProofView, current: crate::Hash) -> crate::Hash {
    match fs.operation {
        FSOpType::Create | FSOpType::Modify => digest(fs.path),
        FSOpType::Delete => current.complement(),
    }
}

/// Whether a filesystem proof's transition holds at chain state `current`:
/// the record carries the hash that its operation contributes, and that
/// hash leads from the proof's previous state to its new state.
pub open spec fn transition_holds(
    proof: OperationProofView,
    fs: FSProofView,
    current: crate::Hash,
) -> bool {
    &&& derived_hash(fs, current) == fs.content_hash
    &&& proof.prev_state.combine(derived_hash(fs, current)) == proof.new_state
}

/// The outcome of checking an operation proof at chain state `current`,
/// given the signature verifier's answer.
///
/// A proof that quotes another previous state, or whose signature was
/// refused, is rejected whatever it holds. After that only a filesystem
/// proof can be judged.
pub open spec fn operation_verdict(
    proof: OperationProofView,
    current: crate::Hash,
    signature_ok: bool,
) -> Result<bool, VerificationError> {
    if proof.prev_state != current {
        Ok(false)
    } else if !signature_ok {
        Ok(false)
    } else {
        match proof.data {
            ProofDataView::Filesystem(fs) => Ok(transition_holds(proof, fs, current)),
            _ => Err(VerificationError::InvalidProof),
        }
    }
}

/// The outcome of checking a proof against itself alone: the filesystem
/// record's own previous state stands in for the chain state, and the
/// record's own two states bracket the transition.
pub open spec fn hash_chain_verdict(proof: OperationProofView) -> Result<
    bool,
    VerificationError,
> {
    match proof.data {
        ProofDataView::Filesystem(fs) => Ok(
            fs.prev_state.combine(derived_hash(fs, fs.prev_state)) == fs.new_state,
        ),
        _ => Err(VerificationError::InvalidProof),
    }
}

/// Whether a block proof holds for a block with content `block_data` at
/// chain state `current`.
pub open spec fn block_proof_holds(
    proof: BlockOperationProof,
    block_data: Seq<u8>,
    current: crate::Hash,
) -> bool {
    &&& proof.spec_verify(block_data)
    &&& proof.prev_state == current
    &&& current.combine(proof.block_hash) == proof.new_state
}

/// The bytes of a block that was looked up, if there is one.
pub open spec fn bytes_of(block: Option<&[u8]>) -> Option<Seq<u8>> {
    match block {
        Some(block_data) => Some(block_data@),
        None => None,
    }
}

/// The outcome of checking a block proof, given what is held for its
/// block.
pub open spec fn block_verdict(
    proof: BlockOperationProof,
    block: Option<Seq<u8>>,
    current: crate::Hash,
) -> Result<bool, VerificationError> {
    match block {
        Some(block_data) => Ok(block_proof_holds(proof, block_data, current)),
        None => Err(VerificationError::InvalidState),
    }
}

/// The outcome of making a proof for a block, given what is held for it.
pub open spec fn generated_proof(
    block_num: u64,
    block: Option<Seq<u8>>,
    current: crate::Hash,
    timestamp: u64,
) -> Result<BlockOperationProof, VerificationError> {
    match block {
        Some(block_data) => Ok(
            BlockOperationProof::spec_new(block_num, block_data, current, timestamp),
        ),
        None => Err(VerificationError::InvalidState),
    }
}

/// Computes the hash that a filesystem operation contributes at chain
/// state `current`.
pub fn derive_hash(fs: &FSProof, current: crate::Hash) -> (h: crate::Hash)
    ensures
        h == derived_hash(fs@, current),
{
    match fs.operation {
        FSOpType::Create | FSOpType::Modify => hash_memory(fs.path.as_str().as_bytes()),
        FSOpType::Delete => current.complement(),
    }
}

/// Checks an operation proof at chain state `current_state`, given the
/// signature verifier's answer on it.
pub fn check_operation(proof: &OperationProof, current_state: crate::Hash, signature_ok: bool) -> (r:
    Result<bool, VerificationError>)
    ensures
        r == operation_verdict(proof@, current_state, signature_ok),
{
    if proof.prev_state != current_state {
        return Ok(false);
    }
    if !signature_ok {
        return Ok(false);
    }
    match &proof.data {
        ProofData::Filesystem(fs_proof) => {
            let computed_hash = derive_hash(fs_proof, current_state);
            if computed_hash != fs_proof.content_hash {
                return Ok(false);
            }
            let expected_state = proof.prev_state.combine(computed_hash);
            if expected_state != proof.new_state {
                return Ok(false);
            }
            Ok(true)
        },
        _ => Err(VerificationError::InvalidProof),
    }
}

/// Checks a filesystem proof against itself alone, with no chain state.
pub fn check_hash_chain(proof: &OperationProof) -> (r: Result<bool, VerificationError>)
    ensures
        r == hash_chain_verdict(proof@),
{
    match &proof.data {
        ProofData::Filesystem(fs_proof) => {
            let current_hash = fs_proof.prev_state;
            let operation_hash = derive_hash(fs_proof, current_hash);
            let expected_hash = current_hash.combine(operation_hash);
            if expected_hash != fs_proof.new_state {
                return Ok(false);
            }
            Ok(true)
        },
        _ => Err(VerificationError::InvalidProof),
    }
}

/// Checks a block proof against what was looked up for its block and the
/// chain state. The content is hashed first; the states are compared
/// only if it matches.
pub fn check_block(
    proof: &BlockOperationProof,
    block: Option<&[u8]>,
    current_state: crate::Hash,
) -> (r: Result<bool, VerificationError>)
    ensures
        r == block_verdict(*proof, bytes_of(block), current_state),
{
    let block_data = match block {
        Some(block_data) => block_data,
        None => {
            return Err(VerificationError::InvalidState);
        },
    };
    if !proof.verify(block_data) {
        return Ok(false);
    }
    if proof.prev_state != current_state {
        return Ok(false);
    }
    let expected_state = current_state.combine(proof.block_hash);
    if expected_state != proof.new_state {
        return Ok(false);
    }
    Ok(true)
}

/// Makes the proof for a block from what was looked up for it, at chain
/// state `current_state`.
pub fn generate_block(
    block_num: u64,
    block: Option<&[u8]>,
    current_state: crate::Hash,
    timestamp: u64,
) -> (r: Result<BlockOperationProof, VerificationError>)
    ensures
        r == generated_proof(block_num, bytes_of(block), current_state, timestamp),
{
    match block {
        Some(block_data) => Ok(
            BlockOperationProof::new(block_num, block_data, current_state, timestamp),
        ),
        None => Err(VerificationError::InvalidState),
    }
}

/// For a record that creates or modifies, the self-contained check
/// succeeds exactly when the record's previous state combined with the
/// digest of its path is the record's new state.
pub proof fn lemma_chain_consistency(proof: OperationProofView, fs: FSProofView)
    requires
        proof.data == ProofDataView::Filesystem(fs),
        fs.operation == FSOpType::Create || fs.operation == FSOpType::Modify,
    ensures
        hash_chain_verdict(proof) == Ok::<bool, VerificationError>(
            fs.prev_state.combine(digest(fs.path)) == fs.new_state,
        ),
{
}

/// For a record that deletes, the self-contained check succeeds exactly
/// when the record's new state has every bit set: a state combined with
/// its own complement.
pub proof fn lemma_chain_consistency_delete(proof: OperationProofView, fs: FSProofView)
    requires
        proof.data == ProofDataView::Filesystem(fs),
        fs.operation == FSOpType::Delete,
    ensures
        hash_chain_verdict(proof) == Ok::<bool, VerificationError>(
            fs.new_state == crate::Hash(u64::MAX),
        ),
{
    let x = fs.prev_state.0;
    assert(x ^ !x == u64::MAX) by (bit_vector);
}

/// The hash that a deletion contributes is the complement of the chain
/// state it is checked against, whatever the record holds. Checked
/// against two different states, one and the same deletion contributes
/// two different hashes.
pub proof fn lemma_delete_sentinel(fs: FSProofView, current: crate::Hash, other: crate::Hash)
    requires
        fs.operation == FSOpType::Delete,
    ensures
        derived_hash(fs, current) == current.complement(),
        current != other ==> derived_hash(fs, current) != derived_hash(fs, other),
{
    let x = current.0;
    let y = other.0;
    assert(x != y ==> !x != !y) by (bit_vector);
}

/// The hash that creating or modifying contributes depends on the path
/// alone.
pub proof fn lemma_content_hash_state_independent(
    fs: FSProofView,
    current: crate::Hash,
    other: crate::Hash,
)
    requires
        fs.operation != FSOpType::Delete,
    ensures
        derived_hash(fs, current) == derived_hash(fs, other),
        derived_hash(fs, current) == digest(fs.path),
{
}

/// A filesystem proof that deletes and whose transition holds at the
/// state it quotes has a new state with every bit set: the quoted state
/// combined with its own complement.
pub proof fn lemma_accepted_delete_new_state(
    proof: OperationProofView,
    fs: FSProofView,
    current: crate::Hash,
)
    requires
        fs.operation == FSOpType::Delete,
        proof.prev_state == current,
        transition_holds(proof, fs, current),
    ensures
        fs.content_hash == current.complement(),
        proof.new_state == crate::Hash(u64::MAX),
{
    let x = current.0;
    assert(x ^ !x == u64::MAX) by (bit_vector);
}

/// A proof whose signature was refused is rejected, whatever its variant,
/// its hashes and the chain state.
pub proof fn lemma_signature_gate(proof: OperationProofView, current: crate::Hash)
    ensures
        operation_verdict(proof, current, false) == Ok::<bool, VerificationError>(false),
{
}

/// A proof is accepted only if its signature was accepted and it quotes
/// the current chain state.
pub proof fn lemma_accepted_implies_signed(
    proof: OperationProofView,
    current: crate::Hash,
    signature_ok: bool,
)
    requires
        operation_verdict(proof, current, signature_ok) == Ok::<bool, VerificationError>(true),
    ensures
        signature_ok,
        proof.prev_state == current,
        proof.data is Filesystem,
{
}

/// A proof of any variant but the filesystem one, which quotes the
/// current chain state and whose signature was accepted, cannot be
/// judged.
pub proof fn lemma_unsupported_variant(proof: OperationProofView, current: crate::Hash)
    requires
        !(proof.data is Filesystem),
        proof.prev_state == current,
    ensures
        operation_verdict(proof, current, true) == Err::<bool, VerificationError>(
            VerificationError::InvalidProof,
        ),
{
}

/// The check is an error exactly for a proof of another variant than the
/// filesystem one that quotes the current chain state and whose
/// signature was accepted.
pub proof fn lemma_error_only_for_unsupported_variant(
    proof: OperationProofView,
    current: crate::Hash,
    signature_ok: bool,
)
    ensures
        operation_verdict(proof, current, signature_ok) is Err <==> !(proof.data is Filesystem)
            && proof.prev_state == current && signature_ok,
        operation_verdict(proof, current, signature_ok) is Err ==> operation_verdict(
            proof,
            current,
            signature_ok,
        ) == Err::<bool, VerificationError>(VerificationError::InvalidProof),
{
}

/// The self-contained check cannot judge a proof of another variant than
/// the filesystem one, and judges every filesystem proof.
pub proof fn lemma_hash_chain_unsupported_variant(proof: OperationProofView)
    ensures
        !(proof.data is Filesystem) <==> hash_chain_verdict(proof) == Err::<
            bool,
            VerificationError,
        >(VerificationError::InvalidProof),
        proof.data is Filesystem <==> hash_chain_verdict(proof) is Ok,
{
}

/// A block proof made at the current chain state holds for the content it
/// was made for, and for other content exactly when the digests agree.
pub proof fn lemma_generated_block_proof_holds(
    block_num: u64,
    block_data: Seq<u8>,
    other_data: Seq<u8>,
    current: crate::Hash,
    timestamp: u64,
)
    ensures
        block_proof_holds(
            BlockOperationProof::spec_new(block_num, block_data, current, timestamp),
            block_data,
            current,
        ),
        block_proof_holds(
            BlockOperationProof::spec_new(block_num, block_data, current, timestamp),
            other_data,
            current,
        ) <==> digest(other_data) == digest(block_data),
{
}

} // verus!
