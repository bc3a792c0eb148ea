//! A chunk of any of the borrowing or owning representations.

use crate::borrowed::BorrowedDataChunk;
use crate::chunk::DataChunk;
use crate::hash::ContentHash;
use crate::mbuf::MbufDataChunk;
use crate::owned::{bytes_content, OwnedDataChunk};
use crate::shared::SharedDataChunk;
use vstd::prelude::*;

verus! {

/// A chunk that either borrows its payload or owns it.
#[derive(Clone)]
pub enum CowDataChunk<'lt> {
    Borrowed(BorrowedDataChunk<'lt>),
    Mbuf(MbufDataChunk<'lt>),
    Owned(OwnedDataChunk),
}

impl<'lt> CowDataChunk<'lt> {
    /// The payload.
    pub open spec fn payload(&self) -> Seq<u8> {
        match self {
            CowDataChunk::Borrowed(c) => c.payload(),
            CowDataChunk::Mbuf(c) => c.payload(),
            CowDataChunk::Owned(c) => c.payload(),
        }
    }

    /// The recorded content hash.
    pub open spec fn fingerprint(&self) -> Seq<u8> {
        match self {
            CowDataChunk::Borrowed(c) => c.fingerprint(),
            CowDataChunk::Mbuf(c) => c.fingerprint(),
            CowDataChunk::Owned(c) => c.fingerprint(),
        }
    }

    /// Takes over a shared chunk, copying its payload into an owned one.
    pub fn from_shared(chunk: SharedDataChunk) -> (r: Self)
        ensures
            r.payload() == chunk.payload(),
            r.fingerprint() == chunk.fingerprint(),
    {
        CowDataChunk::Owned(chunk.into_owned())
    }

    /// The payload as `Bytes`.
    pub fn into_bytes(self) -> (r: bytes::Bytes)
        ensures
            bytes_content(r) == self.payload(),
    {
        self.into_owned().into_bytes()
    }
}

impl<'lt> DataChunk for CowDataChunk<'lt> {
    open spec fn data_view(&self) -> Seq<u8> {
        self.payload()
    }

    open spec fn hash_view(&self) -> Seq<u8> {
        self.fingerprint()
    }

    fn data_ref(&self) -> (r: &[u8]) {
        match self {
            CowDataChunk::Borrowed(c) => c.data_ref(),
            CowDataChunk::Mbuf(c) => c.data_ref(),
            CowDataChunk::Owned(c) => c.data_ref(),
        }
    }

    fn hash_ref(&self) -> (r: &ContentHash) {
        match self {
            CowDataChunk::Borrowed(c) => c.hash_ref(),
            CowDataChunk::Mbuf(c) => c.hash_ref(),
            CowDataChunk::Owned(c) => c.hash_ref(),
        }
    }

    fn hash(&self) -> (r: ContentHash) {
        match self {
            CowDataChunk::Borrowed(c) => c.hash(),
            CowDataChunk::Mbuf(c) => c.hash(),
            CowDataChunk::Owned(c) => c.hash(),
        }
    }

    fn into_owned(self) -> (r: OwnedDataChunk) {
        match self {
            CowDataChunk::Borrowed(c) => c.into_owned(),
            CowDataChunk::Mbuf(c) => c.into_owned(),
            CowDataChunk::Owned(c) => c,
        }
    }
}

} // verus!
