//! Chunks that own their payload.

use crate::borrowed::BorrowedDataChunk;
use crate::chunk::DataChunk;
use crate::error::PsDataChunkError;
use crate::hash::{hash_of, ContentHash};
use vstd::prelude::*;

verus! {

#[verifier::external_type_specification]
#[verifier::external_body]
pub struct ExBytes(bytes::Bytes);

/// The bytes that a `Bytes` value holds.
pub uninterp spec fn bytes_content(b: bytes::Bytes) -> Seq<u8>;

/// Relies on `Clone for bytes::Bytes`: the clone holds the same bytes.
pub assume_specification[ <bytes::Bytes as core::clone::Clone>::clone ](b: &bytes::Bytes) -> (r:
    bytes::Bytes)
    ensures
        bytes_content(r) == bytes_content(*b),
;

/// Relies on `bytes::Bytes::from(Vec<u8>)`, which takes over the vector's
/// bytes as they are.
#[verifier::external_body]
fn bytes_from_vec(v: Vec<u8>) -> (r: bytes::Bytes)
    ensures
        bytes_content(r) == v@,
{
    bytes::Bytes::from(v)
}

/// Relies on `bytes::Bytes::as_ref`, which exposes the bytes it holds.
#[verifier::external_body]
fn bytes_as_slice(b: &bytes::Bytes) -> (r: &[u8])
    ensures
        r@ == bytes_content(*b),
{
    b.as_ref()
}

/// A chunk that owns its payload.
#[derive(Clone, Debug)]
pub struct OwnedDataChunk {
    hash: ContentHash,
    data: bytes::Bytes,
}

impl OwnedDataChunk {
    /// The payload.
    pub closed spec fn payload(&self) -> Seq<u8> {
        bytes_content(self.data)
    }

    /// The recorded content hash.
    pub closed spec fn fingerprint(&self) -> Seq<u8> {
        self.hash@
    }

    /// The payload.
    pub fn data_ref(&self) -> (r: &[u8])
        ensures
            r@ == self.payload(),
    {
        bytes_as_slice(&self.data)
    }

    /// The recorded content hash, by reference.
    pub fn hash_ref(&self) -> (r: &ContentHash)
        ensures
            r@ == self.fingerprint(),
    {
        &self.hash
    }

    /// The recorded content hash.
    pub fn hash(&self) -> (r: ContentHash)
        ensures
            r@ == self.fingerprint(),
    {
        self.hash
    }

    /// Pairs `data` with `hash` without hashing: the caller vouches that
    /// `hash` is the hash of `data`.
    pub fn from_parts(data: bytes::Bytes, hash: ContentHash) -> (r: Self)
        ensures
            r.payload() == bytes_content(data),
            r.fingerprint() == hash@,
    {
        OwnedDataChunk { hash, data }
    }

    /// Takes over `data` and pairs it with `hash`, without hashing.
    pub fn from_data_and_hash(data: Vec<u8>, hash: ContentHash) -> (r: Self)
        ensures
            r.payload() == data@,
            r.fingerprint() == hash@,
    {
        Self::from_parts(bytes_from_vec(data), hash)
    }

    /// Hashes `data` and pairs it with its hash.
    pub fn from_bytes(data: bytes::Bytes) -> (r: Result<Self, PsDataChunkError>)
        ensures
            r matches Ok(c) ==> c.payload() == bytes_content(data) && c.fingerprint() == hash_of(
                bytes_content(data),
            ),
            r is Ok,
    {
        let hash = ContentHash::of(bytes_as_slice(&data))?;
        Ok(Self::from_parts(data, hash))
    }

    /// Takes over `data`, hashes it and pairs it with its hash.
    pub fn from_data(data: Vec<u8>) -> (r: Result<Self, PsDataChunkError>)
        ensures
            r matches Ok(c) ==> c.payload() == data@ && c.fingerprint() == hash_of(data@),
            r is Ok,
    {
        let hash = ContentHash::of(data.as_slice())?;
        Ok(Self::from_data_and_hash(data, hash))
    }

    /// The payload as `Bytes`.
    pub fn into_bytes(self) -> (r: bytes::Bytes)
        ensures
            bytes_content(r) == self.payload(),
    {
        self.data
    }
}

impl DataChunk for OwnedDataChunk {
    open spec fn data_view(&self) -> Seq<u8> {
        self.payload()
    }

    open spec fn hash_view(&self) -> Seq<u8> {
        self.fingerprint()
    }

    fn data_ref(&self) -> (r: &[u8]) {
        bytes_as_slice(&self.data)
    }

    fn hash_ref(&self) -> (r: &ContentHash) {
        &self.hash
    }

    fn hash(&self) -> (r: ContentHash) {
        self.hash
    }

    fn borrow(&self) -> (r: BorrowedDataChunk<'_>) {
        BorrowedDataChunk::from_parts(bytes_as_slice(&self.data), self.hash)
    }

    fn into_owned(self) -> (r: OwnedDataChunk) {
        self
    }
}

/// Taking ownership twice gives the bytes that taking it once gives: if
/// `once` is the owned form of `chunk` and `twice` the owned form of `once`,
/// all three hold the same payload and hash.
pub proof fn lemma_into_owned_idempotent<C: DataChunk>(
    chunk: C,
    once: OwnedDataChunk,
    twice: OwnedDataChunk,
)
    requires
        once.payload() == chunk.data_view(),
        once.fingerprint() == chunk.hash_view(),
        twice.payload() == once.data_view(),
        twice.fingerprint() == once.hash_view(),
    ensures
        twice.payload() == once.payload(),
        twice.fingerprint() == once.fingerprint(),
        twice.payload() == chunk.data_view(),
{
}

} // verus!
