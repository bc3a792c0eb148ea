//! Building serialized buffers: payload, padding, content hash, padding and
//! the little-endian payload length.

use crate::error::PsDataChunkError;
use crate::hash::{hash_of, ContentHash};
use crate::layout::{
    fits_layout, hash_offset_spec, offsets, size_offset_spec, total_size_spec, HASH_SIZE, SIZE_SIZE,
};
use vstd::bytes::{spec_u64_to_le_bytes, u64_to_le_bytes};
use vstd::prelude::*;

verus! {

/// `n` zero bytes.
pub open spec fn zeros(n: int) -> Seq<u8> {
    Seq::new(n as nat, |i: int| 0u8)
}

/// `prefix` followed by zeros up to `hash_offset`, then `hash`, zeros up to
/// `size_offset`, and `data_length` as eight little-endian bytes.
pub open spec fn frame_spec(
    prefix: Seq<u8>,
    hash: Seq<u8>,
    data_length: u64,
    hash_offset: int,
    size_offset: int,
) -> Seq<u8> {
    prefix + zeros(hash_offset - prefix.len()) + hash + zeros(size_offset - (hash_offset + hash.len()))
        + spec_u64_to_le_bytes(data_length)
}

/// The serialized buffer of `data` with the hash `hash`.
pub open spec fn serialized_spec(data: Seq<u8>, hash: Seq<u8>) -> Seq<u8> {
    frame_spec(
        data,
        hash,
        data.len() as u64,
        hash_offset_spec(data.len() as int),
        size_offset_spec(data.len() as int),
    )
}

/// Appends `count` zero bytes to `v`.
fn push_zeros(v: &mut Vec<u8>, count: usize)
    ensures
        final(v)@ == old(v)@ + zeros(count as int),
{
    let ghost start = v@;
    let mut i: usize = 0;
    while i < count
        invariant
            0 <= i <= count,
            v@ == start + zeros(i as int),
        decreases count - i,
    {
        v.push(0u8);
        i += 1;
        proof {
            assert(v@ =~= start + zeros(i as int));
        }
    }
}

/// Appends the bytes of `src` to `v`.
fn push_bytes(v: &mut Vec<u8>, src: &[u8])
    ensures
        final(v)@ == old(v)@ + src@,
{
    let ghost start = v@;
    let mut i: usize = 0;
    while i < src.len()
        invariant
            0 <= i <= src@.len(),
            v@ == start + src@.subrange(0, i as int),
        decreases src@.len() - i,
    {
        v.push(src[i]);
        i += 1;
        proof {
            assert(v@ =~= start + src@.subrange(0, i as int));
        }
    }
    proof {
        assert(src@.subrange(0, src@.len() as int) =~= src@);
    }
}

/// Appends to `data` the zero padding up to `hash_offset`, the hash, the
/// padding up to `size_offset` and `data_length` in little-endian order.
pub fn serialize_vec_with_parameters(
    data: &mut Vec<u8>,
    hash: &[u8],
    data_length: usize,
    hash_offset: usize,
    size_offset: usize,
)
    requires
        old(data)@.len() <= hash_offset,
        hash_offset + hash@.len() <= size_offset,
        size_offset + SIZE_SIZE <= usize::MAX,
    ensures
        final(data)@ == frame_spec(
            old(data)@,
            hash@,
            data_length as u64,
            hash_offset as int,
            size_offset as int,
        ),
        final(data)@.len() == size_offset + SIZE_SIZE,
{
    let ghost prefix = data@;
    let pad = hash_offset - data.len();
    push_zeros(data, pad);
    push_bytes(data, hash);
    let pad = size_offset - data.len();
    push_zeros(data, pad);
    let length = u64_to_le_bytes(data_length as u64);
    push_bytes(data, length.as_slice());
    proof {
        assert(data@ =~= frame_spec(
            prefix,
            hash@,
            data_length as u64,
            hash_offset as int,
            size_offset as int,
        ));
    }
}

/// Turns the payload in `data` into its serialized buffer, with `hash` as its
/// content hash.
pub fn serialize_vec_with_known_hash(data: &mut Vec<u8>, hash: &[u8])
    requires
        hash@.len() == HASH_SIZE,
        fits_layout(old(data)@.len() as int),
    ensures
        final(data)@ == serialized_spec(old(data)@, hash@),
        final(data)@.len() == total_size_spec(old(data)@.len() as int),
{
    let data_length = data.len();
    let (hash_offset, size_offset, _) = offsets(data_length);
    serialize_vec_with_parameters(data, hash, data_length, hash_offset, size_offset)
}

/// Hashes the payload in `data` and turns it into its serialized buffer.
pub fn serialize_vec(data: &mut Vec<u8>) -> (r: Result<(), PsDataChunkError>)
    requires
        fits_layout(old(data)@.len() as int),
    ensures
        r is Ok,
        final(data)@ == serialized_spec(old(data)@, hash_of(old(data)@)),
{
    let hash = ContentHash::of(data.as_slice())?;
    serialize_vec_with_known_hash(data, hash.as_bytes());
    Ok(())
}

/// The serialized buffer of `data` with `hash` as its content hash.
pub fn serialize_bytes_with_known_hash(data: &[u8], hash: &[u8]) -> (r: Vec<u8>)
    requires
        hash@.len() == HASH_SIZE,
        fits_layout(data@.len() as int),
    ensures
        r@ == serialized_spec(data@, hash@),
        r@.len() == total_size_spec(data@.len() as int),
{
    let data_length = data.len();
    let (hash_offset, size_offset, size) = offsets(data_length);
    let mut serialized: Vec<u8> = Vec::with_capacity(size);
    push_bytes(&mut serialized, data);
    serialize_vec_with_parameters(&mut serialized, hash, data_length, hash_offset, size_offset);
    serialized
}

/// Hashes `data` and returns its serialized buffer.
pub fn serialize_bytes(data: &[u8]) -> (r: Result<Vec<u8>, PsDataChunkError>)
    requires
        fits_layout(data@.len() as int),
    ensures
        r matches Ok(v) ==> v@ == serialized_spec(data@, hash_of(data@)),
        r is Ok,
{
    let hash = ContentHash::of(data)?;
    Ok(serialize_bytes_with_known_hash(data, hash.as_bytes()))
}

} // verus!
