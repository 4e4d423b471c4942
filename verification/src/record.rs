//! The proof records: what a producer states about one state transition.
//!
//! Each record type has a view, a plain mathematical value that holds what
//! the checks read: integers, hashes and byte sequences. Strings are seen
//! as their UTF-8 bytes, and a virtual address as its 64 bits.

use vstd::prelude::*;
use x86_64::VirtAddr;

verus! {

/// The type `x86_64::VirtAddr`, a canonical 64-bit virtual address. Its one
/// field is private to its crate, so a value of it is opaque here.
#[verifier::external_type_specification]
#[verifier::external_body]
pub struct ExVirtAddr(VirtAddr);

/// The 64 bits that a virtual address holds.
pub uninterp spec fn virt_addr_bits(addr: VirtAddr) -> u64;

/// `x86_64::VirtAddr::as_u64` returns the address as an integer: the value
/// of the wrapped field, unchanged. Nothing else is claimed of it.
pub assume_specification[ VirtAddr::as_u64 ](addr: VirtAddr) -> (bits: u64)
    ensures
        bits == virt_addr_bits(addr),
;

/// Why a check could not be carried out at all. A check that was carried
/// out and failed is no error: it answers `Ok(false)`.
#[derive(Clone, Copy, Debug, PartialEq, Eq, Structural)]
pub enum VerificationError {
    /// The proof is of a variant that the entry point does not handle.
    InvalidProof,
    /// The authority does not hold what the proof speaks of.
    InvalidState,
}

/// What was done to a file.
#[derive(Clone, Copy, Debug, PartialEq, Eq, Structural)]
pub enum FSOpType {
    Create,
    Modify,
    Delete,
}

impl FSOpType {
    /// The byte that stands for the operation in the canonical encoding.
    pub open spec fn spec_tag(self) -> u8 {
        match self {
            FSOpType::Create => 0,
            FSOpType::Modify => 1,
            FSOpType::Delete => 2,
        }
    }

    /// The byte that stands for the operation in the canonical encoding.
    #[verifier::when_used_as_spec(spec_tag)]
    pub fn tag(self) -> (t: u8)
        ensures
            t == self.spec_tag(),
    {
        match self {
            FSOpType::Create => 0,
            FSOpType::Modify => 1,
            FSOpType::Delete => 2,
        }
    }
}

/// The content of a physical frame changed.
#[derive(Clone, Copy, Debug)]
pub struct MemoryProof {
    pub address: VirtAddr,
    pub size: u64,
    pub frame_hash: crate::Hash,
}

/// The view of a [`MemoryProof`].
pub struct MemoryProofView {
    pub address: u64,
    pub size: u64,
    pub frame_hash: crate::Hash,
}

impl View for MemoryProof {
    type V = MemoryProofView;

    open spec fn view(&self) -> MemoryProofView {
        MemoryProofView {
            address: virt_addr_bits(self.address),
            size: self.size,
            frame_hash: self.frame_hash,
        }
    }
}

/// The metadata or content of a file changed.
///
/// The record carries a chain segment of its own, `prev_state` and
/// `new_state`, beside the one of the proof that holds it.
#[derive(Debug)]
pub struct FSProof {
    pub operation: FSOpType,
    pub path: String,
    pub content_hash: crate::Hash,
    pub prev_state: crate::Hash,
    pub new_state: crate::Hash,
}

/// The view of an [`FSProof`]. The path is seen as its UTF-8 bytes.
pub struct FSProofView {
    pub operation: FSOpType,
    pub path: Seq<u8>,
    pub content_hash: crate::Hash,
    pub prev_state: crate::Hash,
    pub new_state: crate::Hash,
}

impl View for FSProof {
    type V = FSProofView;

    open spec fn view(&self) -> FSProofView {
        FSProofView {
            operation: self.operation,
            path: vstd::utf8::encode_utf8(self.path@),
            content_hash: self.content_hash,
            prev_state: self.prev_state,
            new_state: self.new_state,
        }
    }
}

impl Clone for FSProof {
    fn clone(&self) -> (copy: Self)
        ensures
            copy@ == self@,
    {
        FSProof {
            operation: self.operation,
            path: self.path.clone(),
            content_hash: self.content_hash,
            prev_state: self.prev_state,
            new_state: self.new_state,
        }
    }
}

/// The control block of a process changed.
#[derive(Clone, Copy, Debug)]
pub struct ProcessProof {
    pub pid: u64,
    pub state_hash: crate::Hash,
}

/// A boot stage completed.
#[derive(Clone, Copy, Debug)]
pub struct BootProof {
    pub stage_hash: crate::Hash,
}

/// A tile changed. The position is given as `(x, y)`.
#[derive(Clone, Copy, Debug)]
pub struct TileProof {
    pub tile_id: u64,
    pub position: (u32, u32),
    pub tile_hash: crate::Hash,
}

/// What a proof states about its operation: one of six kinds.
#[derive(Debug)]
pub enum ProofData {
    Memory(MemoryProof),
    Filesystem(FSProof),
    Process(ProcessProof),
    Boot(BootProof),
    Tile(TileProof),
    /// An operation of a kind that has no variant of its own.
    Generic { operation_type: String, data_hash: crate::Hash },
}

/// The view of a [`ProofData`]. The name of a generic operation is seen as
/// its UTF-8 bytes.
pub enum ProofDataView {
    Memory(MemoryProofView),
    Filesystem(FSProofView),
    Process(ProcessProof),
    Boot(BootProof),
    Tile(TileProof),
    Generic { operation_type: Seq<u8>, data_hash: crate::Hash },
}

impl View for ProofData {
    type V = ProofDataView;

    open spec fn view(&self) -> ProofDataView {
        match *self {
            ProofData::Memory(m) => ProofDataView::Memory(m@),
            ProofData::Filesystem(fs) => ProofDataView::Filesystem(fs@),
            ProofData::Process(p) => ProofDataView::Process(p),
            ProofData::Boot(b) => ProofDataView::Boot(b),
            ProofData::Tile(t) => ProofDataView::Tile(t),
            ProofData::Generic { operation_type, data_hash } => ProofDataView::Generic {
                operation_type: vstd::utf8::encode_utf8(operation_type@),
                data_hash,
            },
        }
    }
}

impl Clone for ProofData {
    fn clone(&self) -> (copy: Self)
        ensures
            copy@ == self@,
    {
        match self {
            ProofData::Memory(m) => ProofData::Memory(*m),
            ProofData::Filesystem(fs) => ProofData::Filesystem(fs.clone()),
            ProofData::Process(p) => ProofData::Process(*p),
            ProofData::Boot(b) => ProofData::Boot(*b),
            ProofData::Tile(t) => ProofData::Tile(*t),
            ProofData::Generic { operation_type, data_hash } => ProofData::Generic {
                operation_type: operation_type.clone(),
                data_hash: *data_hash,
            },
        }
    }
}

/// A signed statement of one state transition, from `prev_state` to
/// `new_state`.
#[derive(Debug)]
pub struct OperationProof {
    pub op_id: u64,
    pub prev_state: crate::Hash,
    pub new_state: crate::Hash,
    pub data: ProofData,
    /// The signer's signature over the canonical encoding of the other
    /// fields.
    pub signature: Vec<u8>,
}

/// The view of an [`OperationProof`].
pub struct OperationProofView {
    pub op_id: u64,
    pub prev_state: crate::Hash,
    pub new_state: crate::Hash,
    pub data: ProofDataView,
    pub signature: Seq<u8>,
}

impl View for OperationProof {
    type V = OperationProofView;

    open spec fn view(&self) -> OperationProofView {
        OperationProofView {
            op_id: self.op_id,
            prev_state: self.prev_state,
            new_state: self.new_state,
            data: self.data@,
            signature: self.signature@,
        }
    }
}

impl Clone for OperationProof {
    fn clone(&self) -> (copy: Self)
        ensures
            copy@ == self@,
    {
        let signature = self.signature.clone();
        assert(signature@ =~= self.signature@);
        OperationProof {
            op_id: self.op_id,
            prev_state: self.prev_state,
            new_state: self.new_state,
            data: self.data.clone(),
            signature,
        }
    }
}

} // verus!
