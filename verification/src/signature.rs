//! The signature check: the proof's canonical encoding and its signature
//! are handed to a signature verifier, whose answer is taken as it is.

use vstd::prelude::*;
use crate::encoding::{canonical_bytes, canonical_encoding};
use crate::record::{OperationProof, OperationProofView};

verus! {

/// A verifier of signatures, keyed by its environment. Nothing is assumed
/// of how it decides.
pub trait SignatureVerifier {
    /// Whether `signature` is a valid signature over `message`.
    fn verify(&self, message: &[u8], signature: &[u8]) -> bool;
}

/// `ok` is an answer that `verifier` may give on `message` and `signature`,
/// these bytes and no others.
pub open spec fn answers<V: SignatureVerifier>(
    verifier: &V,
    message: Seq<u8>,
    signature: Seq<u8>,
    ok: bool,
) -> bool {
    exists|m: &[u8], s: &[u8]|
        m@ == message && s@ == signature && #[trigger] call_ensures(
            V::verify,
            (verifier, m, s),
            ok,
        )
}

/// `ok` is an answer that `verifier` may give on the canonical encoding of
/// `proof` and the signature that `proof` carries.
pub open spec fn signature_answer<V: SignatureVerifier>(
    verifier: &V,
    proof: OperationProofView,
    ok: bool,
) -> bool {
    answers(verifier, canonical_encoding(proof), proof.signature, ok)
}

/// Asks `verifier` whether the proof's signature is valid over the proof's
/// canonical encoding, and returns its answer.
pub fn verify_signature<V: SignatureVerifier>(proof: &OperationProof, verifier: &V) -> (ok: bool)
    ensures
        signature_answer(verifier, proof@, ok),
{
    let message = canonical_bytes(proof);
    verifier.verify(message.as_slice(), proof.signature.as_slice())
}

} // verus!
