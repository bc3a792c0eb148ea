//! Chunks whose payload is shared through a reference count.

use crate::chunk::DataChunk;
use crate::error::PsDataChunkError;
use crate::hash::{hash_of, ContentHash};
use std::sync::Arc;
use vstd::prelude::*;

verus! {

/// A chunk whose immutable payload is shared by reference count, so that
/// copies are cheap and may be read from many threads at once.
#[derive(Clone, Debug)]
pub struct SharedDataChunk {
    data: Arc<Vec<u8>>,
    hash: ContentHash,
}

impl SharedDataChunk {
    /// The payload.
    pub closed spec fn payload(&self) -> Seq<u8> {
        self.data@
    }

    /// The recorded content hash.
    pub closed spec fn fingerprint(&self) -> Seq<u8> {
        self.hash@
    }

    /// Another handle on the shared payload.
    pub fn data(&self) -> (r: Arc<Vec<u8>>)
        ensures
            r@ == self.payload(),
    {
        self.data.clone()
    }

    /// Pairs `data` with `hash` without hashing: the caller vouches that
    /// `hash` is the hash of `data`.
    pub fn from_data_and_hash(data: Arc<Vec<u8>>, hash: ContentHash) -> (r: Self)
        ensures
            r.payload() == data@,
            r.fingerprint() == hash@,
    {
        SharedDataChunk { data, hash }
    }

    /// Hashes `data` and pairs it with its hash.
    pub fn from_data(data: Arc<Vec<u8>>) -> (r: Result<Self, PsDataChunkError>)
        ensures
            r matches Ok(c) ==> c.payload() == data@ && c.fingerprint() == hash_of(data@),
            r is Ok,
    {
        let hash = ContentHash::of(data.as_slice())?;
        Ok(Self::from_data_and_hash(data, hash))
    }
}

impl DataChunk for SharedDataChunk {
    open spec fn data_view(&self) -> Seq<u8> {
        self.payload()
    }

    open spec fn hash_view(&self) -> Seq<u8> {
        self.fingerprint()
    }

    fn data_ref(&self) -> (r: &[u8]) {
        self.data.as_slice()
    }

    fn hash_ref(&self) -> (r: &ContentHash) {
        &self.hash
    }

    fn hash(&self) -> (r: ContentHash) {
        self.hash
    }
}

} // verus!
