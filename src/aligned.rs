//! Chunks kept in the aligned layout, ready to be read in place.

use crate::chunk::DataChunk;
use crate::error::PsDataChunkError;
use crate::hash::{hash_of, ContentHash};
use crate::layout::{fits_layout, layout_fits, offsets, total_size_spec};
use crate::serializer::{serialize_bytes_with_known_hash, serialized_spec};
use rkyv::util::AlignedVec;
use vstd::prelude::*;
use vstd::slice::slice_subrange;

verus! {

#[verifier::external_type_specification]
#[verifier::external_body]
pub struct ExAlignedVec<const A: usize>(AlignedVec<A>);

/// The bytes that an `AlignedVec` holds.
pub uninterp spec fn aligned_content(v: AlignedVec) -> Seq<u8>;

/// Relies on `rkyv::util::AlignedVec::new`, which makes an empty vector.
#[verifier::external_body]
fn aligned_new() -> (r: AlignedVec)
    ensures
        aligned_content(r) == Seq::<u8>::empty(),
{
    AlignedVec::new()
}

/// Relies on `rkyv::util::AlignedVec::push`, which appends one byte. It
/// panics only when the capacity would exceed `MAX_CAPACITY`, that is
/// `isize::MAX - 15` for the default alignment of 16.
#[verifier::external_body]
fn aligned_push(v: &mut AlignedVec, byte: u8)
    requires
        aligned_content(*old(v)).len() + 1 <= isize::MAX - 15,
    ensures
        aligned_content(*final(v)) == aligned_content(*old(v)).push(byte),
{
    v.push(byte)
}

/// Relies on `rkyv::util::AlignedVec::as_slice`, which exposes the bytes it
/// holds.
#[verifier::external_body]
pub(crate) fn aligned_as_slice(v: &AlignedVec) -> (r: &[u8])
    ensures
        r@ == aligned_content(*v),
{
    v.as_slice()
}

/// Copies `src` into a new aligned vector.
fn aligned_from_slice(src: &[u8]) -> (r: AlignedVec)
    requires
        src@.len() <= isize::MAX - 15,
    ensures
        aligned_content(r) == src@,
{
    let mut v = aligned_new();
    let mut i: usize = 0;
    while i < src.len()
        invariant
            0 <= i <= src@.len(),
            src@.len() <= isize::MAX - 15,
            aligned_content(v) == src@.subrange(0, i as int),
        decreases src@.len() - i,
    {
        aligned_push(&mut v, src[i]);
        i += 1;
        proof {
            assert(aligned_content(v) =~= src@.subrange(0, i as int));
        }
    }
    proof {
        assert(src@.subrange(0, src@.len() as int) =~= src@);
    }
    v
}

/// Whether a payload of `n` bytes can be laid out in an aligned vector,
/// whose capacity rkyv bounds by `isize::MAX - 15`.
pub open spec fn fits_aligned(n: int) -> bool {
    fits_layout(n) && total_size_spec(n) <= isize::MAX - 15
}

/// Whether a payload of `n` bytes can be laid out in an aligned vector: the
/// executable form of `fits_aligned`.
pub fn aligned_fits(n: usize) -> (r: bool)
    ensures
        r == fits_aligned(n as int),
{
    if !layout_fits(n) {
        return false;
    }
    let (_, _, total) = offsets(n);
    total <= (isize::MAX as usize) - 15
}

/// A chunk whose buffer, aligned for rkyv's in-place access, holds the
/// payload at offset zero, followed by the hash and the length field at
/// their aligned offsets.
#[derive(Debug)]
pub struct AlignedDataChunk {
    buffer: AlignedVec,
    hash: ContentHash,
    length: usize,
}

/// Whether `a` is the aligned form of the payload `data` with the hash `hash`.
pub open spec fn is_alignment_of(a: AlignedDataChunk, data: Seq<u8>, hash: Seq<u8>) -> bool {
    &&& a.payload() == data
    &&& a.fingerprint() == hash
    &&& a.buffer_view() == serialized_spec(data, hash)
}

impl AlignedDataChunk {
    #[verifier::type_invariant]
    closed spec fn well_formed(&self) -> bool {
        let content = aligned_content(self.buffer);
        &&& self.length <= content.len()
        &&& fits_layout(self.length as int)
        &&& content == serialized_spec(content.subrange(0, self.length as int), self.hash@)
    }

    /// The payload.
    pub closed spec fn payload(&self) -> Seq<u8> {
        aligned_content(self.buffer).subrange(0, self.length as int)
    }

    /// The recorded content hash.
    pub closed spec fn fingerprint(&self) -> Seq<u8> {
        self.hash@
    }

    /// The whole aligned buffer: the serialized form of the payload and its
    /// recorded hash.
    pub open spec fn buffer_view(&self) -> Seq<u8> {
        serialized_spec(self.payload(), self.fingerprint())
    }

    /// Lays out `data` with `hash`, without hashing: the caller vouches that
    /// `hash` is the hash of `data`.
    pub fn from_parts(data: &[u8], hash: ContentHash) -> (r: Self)
        requires
            fits_aligned(data@.len() as int),
        ensures
            is_alignment_of(r, data@, hash@),
    {
        let serialized = serialize_bytes_with_known_hash(data, hash.as_bytes());
        let buffer = aligned_from_slice(serialized.as_slice());
        proof {
            assert(serialized@.subrange(0, data@.len() as int) =~= data@);
        }
        AlignedDataChunk { buffer, hash, length: data.len() }
    }

    /// Hashes `data` and lays it out with its hash.
    pub fn from_data_vec(data: AlignedVec) -> (r: Result<Self, PsDataChunkError>)
        requires
            fits_aligned(aligned_content(data).len() as int),
        ensures
            r is Ok,
            r matches Ok(a) ==> is_alignment_of(
                a,
                aligned_content(data),
                hash_of(aligned_content(data)),
            ),
    {
        let bytes = aligned_as_slice(&data);
        let hash = ContentHash::of(bytes)?;
        Ok(Self::from_parts(bytes, hash))
    }

    /// Whether the payload is empty.
    pub fn is_empty(&self) -> (r: bool)
        ensures
            r == (self.payload().len() == 0),
    {
        proof {
            use_type_invariant(self);
        }
        self.length == 0
    }

    /// Length of the payload.
    pub fn len(&self) -> (r: usize)
        ensures
            r == self.payload().len(),
    {
        proof {
            use_type_invariant(self);
        }
        self.length
    }

    /// The whole aligned buffer.
    pub fn aligned_bytes(&self) -> (r: &[u8])
        ensures
            r@ == self.buffer_view(),
    {
        proof {
            use_type_invariant(self);
        }
        aligned_as_slice(&self.buffer)
    }
}

impl DataChunk for AlignedDataChunk {
    open spec fn data_view(&self) -> Seq<u8> {
        self.payload()
    }

    open spec fn hash_view(&self) -> Seq<u8> {
        self.fingerprint()
    }

    fn data_ref(&self) -> (r: &[u8]) {
        proof {
            use_type_invariant(self);
        }
        let r = slice_subrange(aligned_as_slice(&self.buffer), 0, self.length);
        assert(r@ == self.data_view());
        r
    }

    fn hash_ref(&self) -> (r: &ContentHash) {
        &self.hash
    }

    fn hash(&self) -> (r: ContentHash) {
        self.hash
    }

    /// Already aligned: returns this chunk as it is, without copying.
    fn align(self) -> (r: AlignedDataChunk) {
        self
    }
}

/// Aligning twice gives, byte for byte, the buffer that aligning once gives:
/// if `once` is the aligned form of a chunk's payload and hash, and `twice`
/// the aligned form of `once`, the two hold the same buffer, payload and hash.
pub proof fn lemma_align_idempotent(
    data: Seq<u8>,
    hash: Seq<u8>,
    once: AlignedDataChunk,
    twice: AlignedDataChunk,
)
    requires
        is_alignment_of(once, data, hash),
        is_alignment_of(twice, once.data_view(), once.hash_view()),
    ensures
        twice.buffer_view() == once.buffer_view(),
        twice.payload() == once.payload(),
        twice.fingerprint() == once.fingerprint(),
{
}

} // verus!
