//! Chunks held in their serialized form.

use crate::buffer::{buffer_as_slice, buffer_content, buffer_from_slice};
use crate::chunk::DataChunk;
use crate::deserializer::{
    check_stored_hash, deserialize_spec, layout_ok, lemma_accepted_fits, lemma_serialized_reads,
    payload_of, read_layout, read_length, stored_hash_of,
};
use crate::error::PsDataChunkError;
use crate::hash::{hash_of, ContentHash};
use crate::layout::{fits_layout, HASH_SIZE};
use crate::serializer::{serialize_bytes_with_known_hash, serialized_spec};
use vstd::prelude::*;
use vstd::slice::slice_subrange;

verus! {

/// A chunk whose buffer is its serialized form: payload, hash and length
/// field, laid out as the wire format prescribes.
#[derive(Debug)]
pub struct SerializedDataChunk {
    buffer: ps_buffer::Buffer,
    hash: ContentHash,
    length: usize,
}

/// Whether `r` is what reading the serialized buffer `b` gives: the chunk of
/// the payload and hash that `deserialize_spec` finds, holding `b` itself,
/// or its error.
pub open spec fn reads_as(r: Result<SerializedDataChunk, PsDataChunkError>, b: Seq<u8>) -> bool {
    match deserialize_spec(b) {
        Ok((data, hash)) => r is Ok && r->Ok_0.payload() == data && r->Ok_0.fingerprint() == hash
            && r->Ok_0.buffer_view() == b,
        Err(e) => r == Err::<SerializedDataChunk, _>(e),
    }
}

impl SerializedDataChunk {
    #[verifier::type_invariant]
    closed spec fn well_formed(&self) -> bool {
        let content = buffer_content(self.buffer);
        &&& layout_ok(content)
        &&& read_length(content) == self.length
        &&& stored_hash_of(content) == self.hash@
    }

    /// The payload.
    pub closed spec fn payload(&self) -> Seq<u8> {
        buffer_content(self.buffer).subrange(0, self.length as int)
    }

    /// The recorded content hash.
    pub closed spec fn fingerprint(&self) -> Seq<u8> {
        self.hash@
    }

    /// The whole serialized buffer.
    pub closed spec fn buffer_view(&self) -> Seq<u8> {
        buffer_content(self.buffer)
    }

    /// Length of the payload.
    pub fn data_length(&self) -> (r: usize)
        ensures
            r == self.payload().len(),
    {
        let bytes = buffer_as_slice(&self.buffer);
        let total = bytes.len();
        proof {
            use_type_invariant(self);
            lemma_accepted_fits(bytes@);
        }
        assert(self.length <= total);
        self.length
    }

    /// Whether the payload is empty.
    pub fn is_empty(&self) -> (r: bool)
        ensures
            r == (self.payload().len() == 0),
    {
        self.data_length() == 0
    }

    /// Serializes `data` with `hash` as its content hash, without hashing:
    /// the caller vouches that `hash` is the hash of `data`. Fails only when
    /// the buffer cannot be allocated.
    pub fn from_parts(data: &[u8], hash: ContentHash) -> (r: Result<Self, PsDataChunkError>)
        requires
            fits_layout(data@.len() as int),
        ensures
            r matches Ok(c) ==> c.payload() == data@ && c.fingerprint() == hash@
                && c.buffer_view() == serialized_spec(data@, hash@),
            r matches Err(e) ==> e == PsDataChunkError::BufferError,
    {
        let bytes = serialize_bytes_with_known_hash(data, hash.as_bytes());
        let buffer = match buffer_from_slice(bytes.as_slice()) {
            Ok(buffer) => buffer,
            Err(_) => return Err(PsDataChunkError::BufferError),
        };
        proof {
            lemma_serialized_reads(data@, hash@);
        }
        Ok(SerializedDataChunk { buffer, hash, length: data.len() })
    }

    /// Serializes `data` with the hash given as bytes, which must be exactly
    /// `HASH_SIZE` long. The hash is not checked against `data`.
    pub fn try_from_parts(data: &[u8], hash: &[u8]) -> (r: Result<Self, PsDataChunkError>)
        requires
            fits_layout(data@.len() as int),
        ensures
            hash@.len() != HASH_SIZE ==> r == Err::<Self, _>(
                PsDataChunkError::InvalidLength(hash@.len() as usize),
            ),
            r matches Ok(c) ==> c.payload() == data@ && c.fingerprint() == hash@
                && c.buffer_view() == serialized_spec(data@, hash@),
            r matches Err(e) ==> e == PsDataChunkError::BufferError || e
                == PsDataChunkError::InvalidLength(hash@.len() as usize),
    {
        if hash.len() != HASH_SIZE {
            return Err(PsDataChunkError::InvalidLength(hash.len()));
        }
        let mut bytes = [0u8; HASH_SIZE];
        let mut i: usize = 0;
        while i < HASH_SIZE
            invariant
                hash@.len() == HASH_SIZE,
                0 <= i <= HASH_SIZE,
                forall|j: int| 0 <= j < i ==> bytes@[j] == hash@[j],
            decreases HASH_SIZE - i,
        {
            bytes[i] = hash[i];
            i += 1;
        }
        proof {
            assert(bytes@ =~= hash@);
        }
        Self::from_parts(data, ContentHash { bytes })
    }

    /// Hashes `data` and serializes it with its hash. Fails only when the
    /// buffer cannot be allocated.
    pub fn from_data(data: &[u8]) -> (r: Result<Self, PsDataChunkError>)
        requires
            fits_layout(data@.len() as int),
        ensures
            r matches Ok(c) ==> c.payload() == data@ && c.fingerprint() == hash_of(data@)
                && c.buffer_view() == serialized_spec(data@, hash_of(data@)),
            r matches Err(e) ==> e == PsDataChunkError::BufferError,
    {
        let hash = match ContentHash::of(data) {
            Ok(hash) => hash,
            Err(e) => return Err(e),
        };
        Self::from_parts(data, hash)
    }

    /// The serialized buffer.
    pub fn serialized_bytes(&self) -> (r: &[u8])
        ensures
            r@ == self.buffer_view(),
    {
        buffer_as_slice(&self.buffer)
    }

    /// Reads a serialized buffer, recomputing the hash of its payload and
    /// checking it against the stored one. An accepted buffer is kept as it
    /// is given.
    pub fn from_serialized_buffer(buffer: ps_buffer::Buffer) -> (r: Result<Self, PsDataChunkError>)
        ensures
            reads_as(r, buffer_content(buffer)),
            r matches Ok(c) ==> c.fingerprint() == hash_of(c.payload()),
    {
        let bytes = buffer_as_slice(&buffer);
        let (length, _) = match read_layout(bytes) {
            Ok(parts) => parts,
            Err(e) => return Err(e),
        };
        let computed = match ContentHash::of(&bytes[0..length]) {
            Ok(h) => h,
            Err(e) => return Err(e),
        };
        if let Err(e) = check_stored_hash(bytes, &computed) {
            return Err(e);
        }
        proof {
            assert(bytes@.subrange(0, length as int) == payload_of(bytes@));
        }
        Ok(SerializedDataChunk { buffer, hash: computed, length })
    }

    /// The serialized buffer.
    pub fn into_buffer(self) -> (r: ps_buffer::Buffer)
        ensures
            buffer_content(r) == self.buffer_view(),
    {
        self.buffer
    }

    /// The serialized buffer and the content hash.
    pub fn into_parts(self) -> (r: (ps_buffer::Buffer, ContentHash))
        ensures
            buffer_content(r.0) == self.buffer_view(),
            r.1@ == self.fingerprint(),
    {
        (self.buffer, self.hash)
    }
}

impl DataChunk for SerializedDataChunk {
    open spec fn data_view(&self) -> Seq<u8> {
        self.payload()
    }

    open spec fn hash_view(&self) -> Seq<u8> {
        self.fingerprint()
    }

    fn data_ref(&self) -> (r: &[u8]) {
        let bytes = buffer_as_slice(&self.buffer);
        let total = bytes.len();
        proof {
            use_type_invariant(self);
            lemma_accepted_fits(bytes@);
        }
        assert(self.length <= total);
        let r = slice_subrange(bytes, 0, self.length);
        assert(r@ == self.data_view());
        r
    }

    fn hash_ref(&self) -> (r: &ContentHash) {
        &self.hash
    }

    fn hash(&self) -> (r: ContentHash) {
        self.hash
    }
}

} // verus!
