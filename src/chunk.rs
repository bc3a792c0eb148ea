//! The contract that every representation of a chunk meets.

use crate::aligned::{fits_aligned, is_alignment_of, AlignedDataChunk};
use crate::borrowed::BorrowedDataChunk;
use crate::cipher::{ciphertext_of, decrypt};
use crate::serializer::serialized_spec;
use crate::encrypted::EncryptedDataChunk;
use crate::error::PsDataChunkError;
use crate::hash::{hash_of, ContentHash};
use crate::layout::fits_layout;
use crate::owned::OwnedDataChunk;
use crate::serialized::{reads_as, SerializedDataChunk};
use vstd::prelude::*;
use vstd::slice::slice_to_vec;

verus! {

/// A payload paired with its content hash.
///
/// `data_ref` returns the same bytes on every call: no representation lets
/// its payload change after construction.
pub trait DataChunk: Sized {
    /// The payload.
    spec fn data_view(&self) -> Seq<u8>;

    /// The content hash recorded for the payload.
    spec fn hash_view(&self) -> Seq<u8>;

    /// The payload.
    fn data_ref(&self) -> (r: &[u8])
        ensures
            r@ == self.data_view(),
    ;

    /// The recorded content hash, by reference.
    fn hash_ref(&self) -> (r: &ContentHash)
        ensures
            r@ == self.hash_view(),
    ;

    /// The recorded content hash.
    fn hash(&self) -> (r: ContentHash)
        ensures
            r@ == self.hash_view(),
    ;

    /// A view of this chunk that borrows its payload.
    fn borrow(&self) -> (r: BorrowedDataChunk<'_>)
        ensures
            r.payload() == self.data_view(),
            r.fingerprint() == self.hash_view(),
    {
        BorrowedDataChunk::from_parts(self.data_ref(), self.hash())
    }

    /// This chunk as an exclusively owned chunk.
    fn into_owned(self) -> (r: OwnedDataChunk)
        ensures
            r.payload() == self.data_view(),
            r.fingerprint() == self.hash_view(),
    {
        let hash = self.hash();
        OwnedDataChunk::from_data_and_hash(slice_to_vec(self.data_ref()), hash)
    }

    /// The serialized form of this chunk. Fails only when the buffer cannot
    /// be allocated.
    fn serialize(&self) -> (r: Result<SerializedDataChunk, PsDataChunkError>)
        requires
            fits_layout(self.data_view().len() as int),
        ensures
            r matches Ok(c) ==> c.payload() == self.data_view() && c.fingerprint()
                == self.hash_view() && c.buffer_view() == serialized_spec(
                self.data_view(),
                self.hash_view(),
            ),
            r matches Err(e) ==> e == PsDataChunkError::BufferError,
    {
        SerializedDataChunk::from_parts(self.data_ref(), self.hash())
    }

    /// This chunk in the aligned layout.
    fn align(self) -> (r: AlignedDataChunk)
        requires
            fits_aligned(self.data_view().len() as int),
        ensures
            is_alignment_of(r, self.data_view(), self.hash_view()),
    {
        AlignedDataChunk::from_parts(self.data_ref(), self.hash())
    }

    /// Serializes this chunk and encrypts the serialized buffer.
    fn encrypt(&self) -> (r: Result<EncryptedDataChunk, PsDataChunkError>)
        requires
            fits_layout(self.data_view().len() as int),
        ensures
            r matches Ok(c) ==> c.payload() == ciphertext_of(
                serialized_spec(self.data_view(), self.hash_view()),
            ),
            r matches Ok(c) ==> c.fingerprint() == hash_of(c.payload()),
            r matches Err(e) ==> e == PsDataChunkError::BufferError || e
                == PsDataChunkError::EncryptionError,
    {
        let serialized = SerializedDataChunk::from_parts(self.data_ref(), self.hash())?;
        EncryptedDataChunk::from_serialized(&serialized)
    }

    /// Decrypts this chunk's payload with `key` and reads the plaintext as a
    /// serialized buffer.
    fn decrypt(&self, key: &ps_hash::Hash) -> (r: Result<SerializedDataChunk, PsDataChunkError>)
        ensures
            r matches Ok(c) ==> c.fingerprint() == hash_of(c.payload()),
            r == Err::<SerializedDataChunk, _>(PsDataChunkError::DecryptionError) || exists|p: Seq<u8>|
                #[trigger] reads_as(r, p),
    {
        decrypt(self.data_ref(), key)
    }
}

} // verus!
