use proof_chain::{
    check_block, generate_block, hash_memory, BlockOperationProof, VerificationError,
};

#[test]
fn new_fills_every_field() {
    let prev = proof_chain::Hash(0x0123_4567_89ab_cdef);
    let proof = BlockOperationProof::new(7, b"abcd", prev, 99);
    assert_eq!(proof.block_num, 7);
    assert_eq!(proof.block_hash, proof_chain::Hash(0xfc17_9f83_ee07_24dd));
    assert_eq!(proof.prev_state, prev);
    assert_eq!(proof.new_state, proof_chain::Hash(0xfd34_dae4_67ac_e932));
    assert_eq!(proof.timestamp, 99);
}

#[test]
fn new_state_is_prev_state_combined_with_block_hash() {
    let prev = proof_chain::Hash(0xaaaa_5555_aaaa_5555);
    let data = vec![9u8; 512];
    let proof = BlockOperationProof::new(3, &data, prev, 0);
    assert_eq!(proof.block_hash, hash_memory(&data));
    assert_eq!(proof.new_state, prev.combine(hash_memory(&data)));
    assert_eq!(proof.new_state.combine(proof.block_hash), prev);
}

#[test]
fn round_trip() {
    let blocks: [&[u8]; 4] = [b"abcd", b"\x00", b"the quick brown fox", &[0xff; 4096]];
    for (block_num, data) in blocks.iter().enumerate() {
        let proof =
            BlockOperationProof::new(block_num as u64, data, proof_chain::Hash(17), 1);
        assert!(proof.verify(data));
    }
}

#[test]
fn round_trip_of_the_empty_block() {
    let proof = BlockOperationProof::new(0, &[], proof_chain::Hash(5), 0);
    assert_eq!(proof.block_hash, proof_chain::Hash(0xcbf2_9ce4_8422_2325));
    assert_eq!(
        proof.new_state,
        proof_chain::Hash(0xcbf2_9ce4_8422_2325 ^ 5)
    );
    assert!(proof.verify(&[]));
    assert!(!proof.verify(&[0]));
}

#[test]
fn tampered_content_is_detected() {
    let proof = BlockOperationProof::new(7, b"abcd", proof_chain::Hash(1), 0);
    assert_ne!(hash_memory(b"abce"), hash_memory(b"abcd"));
    assert!(!proof.verify(b"abce"));
    assert!(!proof.verify(b"abc"));
    assert!(!proof.verify(b"abcd\x00"));
    assert!(!proof.verify(b""));
}

#[test]
fn verify_reads_the_block_hash_only() {
    let mut proof = BlockOperationProof::new(7, b"abcd", proof_chain::Hash(1), 0);
    proof.block_num = 8;
    proof.prev_state = proof_chain::Hash(2);
    proof.new_state = proof_chain::Hash(3);
    proof.timestamp = 4;
    assert!(proof.verify(b"abcd"));
    proof.block_hash = proof_chain::Hash(proof.block_hash.0 ^ 1);
    assert!(!proof.verify(b"abcd"));
}

#[test]
fn timestamp_is_carried_and_not_checked() {
    let early = BlockOperationProof::new(1, b"x", proof_chain::Hash(0), 10);
    let late = BlockOperationProof::new(1, b"x", proof_chain::Hash(0), 20);
    assert_eq!(early.timestamp, 10);
    assert_eq!(late.timestamp, 20);
    assert_eq!(early.block_hash, late.block_hash);
    assert_eq!(early.new_state, late.new_state);
    assert_eq!(check_block(&early, Some(b"x"), proof_chain::Hash(0)), Ok(true));
    assert_eq!(check_block(&late, Some(b"x"), proof_chain::Hash(0)), Ok(true));
}

#[test]
fn check_block_accepts_a_fresh_proof() {
    let state = proof_chain::Hash(0x77);
    let proof = BlockOperationProof::new(7, b"abcd", state, 0);
    assert_eq!(check_block(&proof, Some(b"abcd"), state), Ok(true));
}

#[test]
fn check_block_rejects_changed_content() {
    let state = proof_chain::Hash(0x77);
    let proof = BlockOperationProof::new(7, b"abcd", state, 0);
    assert_eq!(check_block(&proof, Some(b"abce"), state), Ok(false));
}

#[test]
fn check_block_rejects_a_stale_proof() {
    let state = proof_chain::Hash(0x77);
    let proof = BlockOperationProof::new(7, b"abcd", state, 0);
    let advanced = state.combine(proof.block_hash);
    assert_eq!(check_block(&proof, Some(b"abcd"), advanced), Ok(false));
}

#[test]
fn check_block_rejects_a_wrong_new_state() {
    let state = proof_chain::Hash(0x77);
    let mut proof = BlockOperationProof::new(7, b"abcd", state, 0);
    proof.new_state = proof_chain::Hash(proof.new_state.0 ^ 0x10);
    assert_eq!(check_block(&proof, Some(b"abcd"), state), Ok(false));
}

#[test]
fn applying_the_same_block_twice_restores_the_chain_state() {
    let start = proof_chain::Hash(0x1234);
    let first = BlockOperationProof::new(7, b"abcd", start, 0);
    let second = BlockOperationProof::new(7, b"abcd", first.new_state, 1);
    assert_eq!(second.new_state, start);
}

#[test]
fn check_block_without_the_block_is_an_invalid_state() {
    let state = proof_chain::Hash(0x77);
    let proof = BlockOperationProof::new(7, b"abcd", state, 0);
    assert_eq!(
        check_block(&proof, None, state),
        Err(VerificationError::InvalidState)
    );
    // The absence is reported before anything of the proof is looked at.
    let mut stale = proof;
    stale.prev_state = proof_chain::Hash(0);
    assert_eq!(
        check_block(&stale, None, state),
        Err(VerificationError::InvalidState)
    );
}

#[test]
fn generate_block_makes_the_proof_of_the_content() {
    let state = proof_chain::Hash(0x77);
    assert_eq!(
        generate_block(7, Some(b"abcd"), state, 12),
        Ok(BlockOperationProof {
            block_num: 7,
            block_hash: proof_chain::Hash(0xfc17_9f83_ee07_24dd),
            prev_state: state,
            new_state: proof_chain::Hash(0xfc17_9f83_ee07_24dd ^ 0x77),
            timestamp: 12,
        })
    );
}

#[test]
fn generate_block_without_the_block_is_an_invalid_state() {
    assert_eq!(
        generate_block(7, None, proof_chain::Hash(0x77), 12),
        Err(VerificationError::InvalidState)
    );
}
