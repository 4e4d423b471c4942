//! The canonical encoding of an operation proof: the bytes that are signed.
//!
//! The encoding is a plain concatenation. Integers are written with their
//! full width, least significant byte first, which is the order in memory
//! on x86-64. Strings are written as their bytes. Nothing marks where a
//! string ends: the fixed-width fields after it follow at once.

use vstd::prelude::*;
use crate::record::{FSProof, OperationProof, OperationProofView, ProofData, ProofDataView};

verus! {

/// Byte `i` of `x`, counted from the least significant.
pub open spec fn le_byte(x: u64, i: int) -> u8 {
    ((x >> ((8 * i) as u64)) & 0xff) as u8
}

/// The eight bytes of a 64-bit integer, least significant first.
pub open spec fn le_bytes_u64(x: u64) -> Seq<u8> {
    Seq::new(8, |i: int| le_byte(x, i))
}

/// The four bytes of a 32-bit integer, least significant first.
pub open spec fn le_bytes_u32(x: u32) -> Seq<u8> {
    Seq::new(4, |i: int| le_byte(x as u64, i))
}

/// The byte that tells the variants apart.
pub open spec fn variant_tag(data: ProofDataView) -> u8 {
    match data {
        ProofDataView::Memory(_) => 0,
        ProofDataView::Filesystem(_) => 1,
        ProofDataView::Process(_) => 2,
        ProofDataView::Boot(_) => 3,
        ProofDataView::Tile(_) => 4,
        ProofDataView::Generic { .. } => 5,
    }
}

/// The fields of the variant, in the order of their declaration:
///
/// - memory: address, size, frame hash;
/// - filesystem: operation (one byte), path, content hash, previous
///   state, new state;
/// - process: pid, state hash;
/// - boot: stage hash;
/// - tile: tile id, position x, position y (four bytes each), tile hash;
/// - generic: operation type, data hash.
///
/// A hash, an address, a size and an identifier take eight bytes each. A
/// string takes as many bytes as it has.
pub open spec fn variant_fields(data: ProofDataView) -> Seq<u8> {
    match data {
        ProofDataView::Memory(m) => le_bytes_u64(m.address) + le_bytes_u64(m.size) + le_bytes_u64(
            m.frame_hash.0,
        ),
        ProofDataView::Filesystem(fs) => seq![fs.operation.tag()] + fs.path + le_bytes_u64(
            fs.content_hash.0,
        ) + le_bytes_u64(fs.prev_state.0) + le_bytes_u64(fs.new_state.0),
        ProofDataView::Process(p) => le_bytes_u64(p.pid) + le_bytes_u64(p.state_hash.0),
        ProofDataView::Boot(b) => le_bytes_u64(b.stage_hash.0),
        ProofDataView::Tile(t) => le_bytes_u64(t.tile_id) + le_bytes_u32(t.position.0)
            + le_bytes_u32(t.position.1) + le_bytes_u64(t.tile_hash.0),
        ProofDataView::Generic { operation_type, data_hash } => operation_type + le_bytes_u64(
            data_hash.0,
        ),
    }
}

/// The canonical encoding: the operation's identifier, the two chain
/// states, the variant's tag and the variant's fields. The signature is
/// no part of it.
pub open spec fn canonical_encoding(proof: OperationProofView) -> Seq<u8> {
    le_bytes_u64(proof.op_id) + le_bytes_u64(proof.prev_state.0) + le_bytes_u64(
        proof.new_state.0,
    ) + seq![variant_tag(proof.data)] + variant_fields(proof.data)
}

/// Appends the eight bytes of `x`.
fn push_u64(out: &mut Vec<u8>, x: u64)
    ensures
        final(out)@ == old(out)@ + le_bytes_u64(x),
{
    let mut i: u64 = 0;
    while i < 8
        invariant
            i <= 8,
            out@ == old(out)@ + le_bytes_u64(x).take(i as int),
        decreases 8 - i,
    {
        let shift: u64 = 8 * i;
        assert((x >> shift) & 0xff < 256) by (bit_vector);
        out.push(((x >> shift) & 0xff) as u8);
        assert(le_bytes_u64(x).take(i + 1) == le_bytes_u64(x).take(i as int).push(
            le_byte(x, i as int),
        ));
        i += 1;
    }
    assert(le_bytes_u64(x).take(8) == le_bytes_u64(x));
}

/// Appends the four bytes of `x`.
fn push_u32(out: &mut Vec<u8>, x: u32)
    ensures
        final(out)@ == old(out)@ + le_bytes_u32(x),
{
    let wide: u64 = x as u64;
    let mut i: u64 = 0;
    while i < 4
        invariant
            i <= 4,
            wide == x as u64,
            out@ == old(out)@ + le_bytes_u32(x).take(i as int),
        decreases 4 - i,
    {
        let shift: u64 = 8 * i;
        assert((wide >> shift) & 0xff < 256) by (bit_vector);
        out.push(((wide >> shift) & 0xff) as u8);
        assert(le_bytes_u32(x).take(i + 1) == le_bytes_u32(x).take(i as int).push(
            le_byte(x as u64, i as int),
        ));
        i += 1;
    }
    assert(le_bytes_u32(x).take(4) == le_bytes_u32(x));
}

/// Appends `bytes` as they are.
fn push_bytes(out: &mut Vec<u8>, bytes: &[u8])
    ensures
        final(out)@ == old(out)@ + bytes@,
{
    let mut i: usize = 0;
    while i < bytes.len()
        invariant
            i <= bytes.len(),
            out@ == old(out)@ + bytes@.take(i as int),
        decreases bytes.len() - i,
    {
        out.push(bytes[i]);
        assert(bytes@.take(i + 1) == bytes@.take(i as int).push(bytes@[i as int]));
        i += 1;
    }
    assert(bytes@.take(i as int) == bytes@);
}

/// Appends the fields of a filesystem record.
fn push_fs_fields(out: &mut Vec<u8>, fs: &FSProof)
    ensures
        final(out)@ == old(out)@ + variant_fields(ProofDataView::Filesystem(fs@)),
{
    out.push(fs.operation.tag());
    push_bytes(out, fs.path.as_str().as_bytes());
    push_u64(out, fs.content_hash.0);
    push_u64(out, fs.prev_state.0);
    push_u64(out, fs.new_state.0);
    assert(out@ == old(out)@ + variant_fields(ProofDataView::Filesystem(fs@)));
}

/// Appends the variant's tag and its fields.
fn push_variant(out: &mut Vec<u8>, data: &ProofData)
    ensures
        final(out)@ == old(out)@ + seq![variant_tag(data@)] + variant_fields(data@),
{
    match data {
        ProofData::Memory(m) => {
            out.push(0);
            push_u64(out, m.address.as_u64());
            push_u64(out, m.size);
            push_u64(out, m.frame_hash.0);
        },
        ProofData::Filesystem(fs) => {
            out.push(1);
            push_fs_fields(out, fs);
        },
        ProofData::Process(p) => {
            out.push(2);
            push_u64(out, p.pid);
            push_u64(out, p.state_hash.0);
        },
        ProofData::Boot(b) => {
            out.push(3);
            push_u64(out, b.stage_hash.0);
        },
        ProofData::Tile(t) => {
            out.push(4);
            push_u64(out, t.tile_id);
            push_u32(out, t.position.0);
            push_u32(out, t.position.1);
            push_u64(out, t.tile_hash.0);
        },
        ProofData::Generic { operation_type, data_hash } => {
            out.push(5);
            push_bytes(out, operation_type.as_str().as_bytes());
            push_u64(out, data_hash.0);
        },
    }
    assert(out@ == old(out)@ + seq![variant_tag(data@)] + variant_fields(data@));
}

/// Writes the canonical encoding of a proof.
pub fn canonical_bytes(proof: &OperationProof) -> (out: Vec<u8>)
    ensures
        out@ == canonical_encoding(proof@),
{
    let mut out: Vec<u8> = Vec::new();
    push_u64(&mut out, proof.op_id);
    push_u64(&mut out, proof.prev_state.0);
    push_u64(&mut out, proof.new_state.0);
    push_variant(&mut out, &proof.data);
    assert(out@ == canonical_encoding(proof@));
    out
}

} // verus!
