//! Typed views: chunks whose payload has been validated once as the archived
//! form of a record type.

use crate::chunk::DataChunk;
use crate::error::PsDataChunkError;
use crate::aligned::{aligned_as_slice, aligned_fits, AlignedDataChunk};
use crate::hash::{hash_of, ContentHash};
use crate::owned::OwnedDataChunk;
use rkyv::api::high::{HighSerializer, HighValidator};
use rkyv::ser::allocator::ArenaHandle;
use rkyv::util::AlignedVec;
use rkyv::bytecheck::CheckBytes;
use std::marker::PhantomData;
use vstd::prelude::*;

verus! {

/// Relies on `rkyv::access`, the archive validator: whether `bytes` is a
/// well-formed archived `T`.
#[verifier::external_body]
pub fn check_byte_layout<T>(bytes: &[u8]) -> (r: bool)
    where
        T: rkyv::Archive,
        T::Archived: for<'a> CheckBytes<HighValidator<'a, rancor::Error>>,
{
    rkyv::access::<T::Archived, rancor::Error>(bytes).is_ok()
}

/// A chunk whose payload passed the archive validator for `T`.
pub struct TypedDataChunk<D, T> {
    chunk: D,
    _p: PhantomData<T>,
}

impl<D: DataChunk, T> TypedDataChunk<D, T> {
    /// The validated chunk.
    pub closed spec fn inner(&self) -> D {
        self.chunk
    }

    /// Wraps `chunk` when `layout_ok`, the validator's verdict on its
    /// payload, holds; rejects it with `InvalidArchive` otherwise.
    pub fn from_checked(chunk: D, layout_ok: bool) -> (r: Result<Self, PsDataChunkError>)
        ensures
            r is Ok <==> layout_ok,
            r matches Ok(t) ==> t.inner() == chunk,
            r matches Err(e) ==> e == PsDataChunkError::InvalidArchive,
    {
        if layout_ok {
            Ok(TypedDataChunk { chunk, _p: PhantomData })
        } else {
            Err(PsDataChunkError::InvalidArchive)
        }
    }

    /// Validates the payload of `chunk` as an archived `T`, once, and wraps
    /// the chunk.
    pub fn from_data_chunk(chunk: D) -> (r: Result<Self, PsDataChunkError>)
        where
            T: rkyv::Archive,
            T::Archived: for<'a> CheckBytes<HighValidator<'a, rancor::Error>>,
        ensures
            r matches Ok(t) ==> t.inner() == chunk,
            r matches Err(e) ==> e == PsDataChunkError::InvalidArchive,
    {
        let layout_ok = check_byte_layout::<T>(chunk.data_ref());
        Self::from_checked(chunk, layout_ok)
    }

    /// The wrapped chunk.
    pub fn into_inner(self) -> (r: D)
        ensures
            r == self.inner(),
    {
        self.chunk
    }
}

impl<D: DataChunk, T> DataChunk for TypedDataChunk<D, T> {
    open spec fn data_view(&self) -> Seq<u8> {
        self.inner().data_view()
    }

    open spec fn hash_view(&self) -> Seq<u8> {
        self.inner().hash_view()
    }

    fn data_ref(&self) -> (r: &[u8]) {
        self.chunk.data_ref()
    }

    fn hash_ref(&self) -> (r: &ContentHash) {
        self.chunk.hash_ref()
    }

    fn hash(&self) -> (r: ContentHash) {
        self.chunk.hash()
    }

    fn into_owned(self) -> (r: OwnedDataChunk) {
        self.chunk.into_owned()
    }
}

#[verifier::external_type_specification]
#[verifier::external_body]
pub struct ExRancorError(rancor::Error);

/// Relies on `rkyv::to_bytes`, which writes `value` in rkyv's archive
/// format into an aligned vector.
#[verifier::external_body]
fn archive_bytes<T>(value: &T) -> (r: Result<AlignedVec, rancor::Error>)
    where
        T: for<'a> rkyv::Serialize<HighSerializer<AlignedVec, ArenaHandle<'a>, rancor::Error>>,
{
    rkyv::to_bytes::<rancor::Error>(value)
}

impl AlignedDataChunk {
    /// Archives `value` with rkyv and lays the archive out as an aligned
    /// chunk with its hash.
    pub fn try_from<T>(value: &T) -> (r: Result<AlignedDataChunk, PsDataChunkError>)
        where
            T: for<'a> rkyv::Serialize<HighSerializer<AlignedVec, ArenaHandle<'a>, rancor::Error>>,
        ensures
            r matches Ok(a) ==> a.fingerprint() == hash_of(a.payload()),
            r matches Err(e) ==> e == PsDataChunkError::SerializationError || e is InvalidLength,
    {
        let bytes = match archive_bytes(value) {
            Ok(bytes) => bytes,
            Err(_) => return Err(PsDataChunkError::SerializationError),
        };
        let length = aligned_as_slice(&bytes).len();
        if !aligned_fits(length) {
            return Err(PsDataChunkError::InvalidLength(length));
        }
        AlignedDataChunk::from_data_vec(bytes)
    }
}

} // verus!
