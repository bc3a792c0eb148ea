//! Chunks whose payload is borrowed from a buffer owned elsewhere.

use crate::chunk::DataChunk;
use crate::error::PsDataChunkError;
use crate::hash::{hash_of, ContentHash};
use crate::owned::OwnedDataChunk;
use vstd::prelude::*;
use vstd::slice::slice_to_vec;

verus! {

/// A chunk whose payload lives in a buffer owned by the caller.
#[derive(Clone, Copy, Debug)]
pub struct BorrowedDataChunk<'lt> {
    data: &'lt [u8],
    hash: ContentHash,
}

impl<'lt> BorrowedDataChunk<'lt> {
    /// The payload.
    pub closed spec fn payload(&self) -> Seq<u8> {
        self.data@
    }

    /// The recorded content hash.
    pub closed spec fn fingerprint(&self) -> Seq<u8> {
        self.hash@
    }

    /// Pairs `data` with `hash` without hashing: the caller vouches that
    /// `hash` is the hash of `data`.
    pub fn from_parts(data: &'lt [u8], hash: ContentHash) -> (r: Self)
        ensures
            r.payload() == data@,
            r.fingerprint() == hash@,
    {
        BorrowedDataChunk { data, hash }
    }

    /// Hashes `data` and pairs it with its hash.
    pub fn from_data(data: &'lt [u8]) -> (r: Result<Self, PsDataChunkError>)
        ensures
            r matches Ok(c) ==> c.payload() == data@ && c.fingerprint() == hash_of(data@),
            r is Ok,
    {
        let hash = ContentHash::of(data)?;
        Ok(BorrowedDataChunk { data, hash })
    }
}

impl<'lt> DataChunk for BorrowedDataChunk<'lt> {
    open spec fn data_view(&self) -> Seq<u8> {
        self.payload()
    }

    open spec fn hash_view(&self) -> Seq<u8> {
        self.fingerprint()
    }

    fn data_ref(&self) -> (r: &[u8]) {
        self.data
    }

    fn hash_ref(&self) -> (r: &ContentHash) {
        &self.hash
    }

    fn hash(&self) -> (r: ContentHash) {
        self.hash
    }

    fn borrow(&self) -> (r: BorrowedDataChunk<'_>) {
        BorrowedDataChunk { data: self.data, hash: self.hash }
    }

    fn into_owned(self) -> (r: OwnedDataChunk) {
        OwnedDataChunk::from_data_and_hash(slice_to_vec(self.data), self.hash)
    }
}

} // verus!
