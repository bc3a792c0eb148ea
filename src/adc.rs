//! A minimal view of a chunk as two byte strings: payload and hash.

use crate::aligned::AlignedDataChunk;
use crate::chunk::DataChunk;
use crate::cow::CowDataChunk;
use crate::owned::OwnedDataChunk;
use vstd::prelude::*;

verus! {

/// A chunk seen as its payload bytes and its hash bytes.
pub trait AbstractDataChunk {
    /// The payload.
    spec fn payload_bytes(&self) -> Seq<u8>;

    /// The hash, as bytes.
    spec fn hash_bytes(&self) -> Seq<u8>;

    /// The payload.
    fn data(&self) -> (r: &[u8])
        ensures
            r@ == self.payload_bytes(),
    ;

    /// The hash, as bytes.
    fn hash(&self) -> (r: &[u8])
        ensures
            r@ == self.hash_bytes(),
    ;
}

impl AbstractDataChunk for AlignedDataChunk {
    open spec fn payload_bytes(&self) -> Seq<u8> {
        self.payload()
    }

    open spec fn hash_bytes(&self) -> Seq<u8> {
        self.fingerprint()
    }

    fn data(&self) -> (r: &[u8]) {
        self.data_ref()
    }

    fn hash(&self) -> (r: &[u8]) {
        self.hash_ref().as_bytes()
    }
}

impl AbstractDataChunk for OwnedDataChunk {
    open spec fn payload_bytes(&self) -> Seq<u8> {
        self.payload()
    }

    open spec fn hash_bytes(&self) -> Seq<u8> {
        self.fingerprint()
    }

    fn data(&self) -> (r: &[u8]) {
        self.data_ref()
    }

    fn hash(&self) -> (r: &[u8]) {
        self.hash_ref().as_bytes()
    }
}

impl<'lt> AbstractDataChunk for CowDataChunk<'lt> {
    open spec fn payload_bytes(&self) -> Seq<u8> {
        self.payload()
    }

    open spec fn hash_bytes(&self) -> Seq<u8> {
        self.fingerprint()
    }

    fn data(&self) -> (r: &[u8]) {
        self.data_ref()
    }

    fn hash(&self) -> (r: &[u8]) {
        self.hash_ref().as_bytes()
    }
}

} // verus!
