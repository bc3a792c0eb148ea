//! Chunks that borrow their payload from a network buffer, whose metadata
//! slot holds the content hash.

use crate::chunk::DataChunk;
use crate::hash::ContentHash;
use crate::layout::HASH_SIZE;
use vstd::prelude::*;

verus! {

#[verifier::external_type_specification]
#[verifier::external_body]
#[verifier::reject_recursive_types(M)]
#[verifier::reject_recursive_types(D)]
pub struct ExMbuf<'lt, M, D>(ps_mbuf::Mbuf<'lt, M, D>);

/// Relies on `ps_mbuf::Mbuf::to_slice`, which returns the buffer's data
/// region.
#[verifier::external_body]
fn mbuf_bytes<'lt>(inner: &'lt ps_mbuf::Mbuf<'lt, ps_hash::Hash, u8>) -> (r: &'lt [u8]) {
    inner.to_slice()
}

/// Relies on `ps_mbuf::Mbuf::get_metadata`, which returns the metadata slot,
/// here a hash; it is turned into its base64url form with ps_hash's
/// `From<Hash> for [u8; 64]`.
#[verifier::external_body]
fn mbuf_hash(inner: &ps_mbuf::Mbuf<'_, ps_hash::Hash, u8>) -> (r: [u8; HASH_SIZE]) {
    (*inner.get_metadata()).into()
}

/// A chunk whose payload is the data region of a network buffer and whose
/// hash is that buffer's metadata. It never owns memory.
#[derive(Clone, Copy)]
pub struct MbufDataChunk<'lt> {
    data: &'lt [u8],
    hash: ContentHash,
}

impl<'lt> MbufDataChunk<'lt> {
    /// The payload.
    pub closed spec fn payload(&self) -> Seq<u8> {
        self.data@
    }

    /// The recorded content hash.
    pub closed spec fn fingerprint(&self) -> Seq<u8> {
        self.hash@
    }

    /// Views the data region and the metadata of `inner` as a chunk.
    pub fn from_mbuf(inner: &'lt ps_mbuf::Mbuf<'lt, ps_hash::Hash, u8>) -> (r: Self) {
        MbufDataChunk { data: mbuf_bytes(inner), hash: ContentHash { bytes: mbuf_hash(inner) } }
    }
}

impl<'lt> DataChunk for MbufDataChunk<'lt> {
    open spec fn data_view(&self) -> Seq<u8> {
        self.payload()
    }

    open spec fn hash_view(&self) -> Seq<u8> {
        self.fingerprint()
    }

    fn data_ref(&self) -> (r: &[u8]) {
        assert(self.data@ == self.data_view());
        self.data
    }

    fn hash_ref(&self) -> (r: &ContentHash) {
        &self.hash
    }

    fn hash(&self) -> (r: ContentHash) {
        self.hash
    }
}

} // verus!
