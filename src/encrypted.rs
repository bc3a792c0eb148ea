//! Chunks whose payload is ciphertext.

use crate::buffer::{buffer_as_slice, buffer_content};
use crate::chunk::DataChunk;
use crate::cipher::{cipher_encrypt, ciphertext_of, decrypt};
use crate::error::PsDataChunkError;
use crate::hash::{hash_of, ContentHash};
use crate::serialized::{reads_as, SerializedDataChunk};
use vstd::prelude::*;

verus! {

/// The ciphertext of a serialized chunk, the content hash of that
/// ciphertext, and the key that decrypts it.
#[derive(Debug)]
pub struct EncryptedDataChunk {
    data: ps_buffer::Buffer,
    hash: ContentHash,
    key: ps_hash::Hash,
}

impl EncryptedDataChunk {
    /// The ciphertext.
    pub closed spec fn payload(&self) -> Seq<u8> {
        buffer_content(self.data)
    }

    /// The content hash of the ciphertext.
    pub closed spec fn fingerprint(&self) -> Seq<u8> {
        self.hash@
    }

    /// Encrypts the serialized buffer of `chunk`.
    pub fn from_serialized(chunk: &SerializedDataChunk) -> (r: Result<Self, PsDataChunkError>)
        ensures
            r matches Ok(c) ==> c.payload() == ciphertext_of(chunk.buffer_view()),
            r matches Ok(c) ==> c.fingerprint() == hash_of(c.payload()),
            r matches Err(e) ==> e == PsDataChunkError::EncryptionError,
    {
        match cipher_encrypt(chunk.serialized_bytes()) {
            Ok((data, bytes, key)) => Ok(EncryptedDataChunk { data, hash: ContentHash { bytes }, key }),
            Err(_) => Err(PsDataChunkError::EncryptionError),
        }
    }

    /// The key that decrypts this chunk.
    pub fn key(&self) -> (r: &ps_hash::Hash) {
        &self.key
    }

    /// Decrypts this chunk with its own key.
    pub fn decrypt(&self) -> (r: Result<SerializedDataChunk, PsDataChunkError>)
        ensures
            r matches Ok(c) ==> c.fingerprint() == hash_of(c.payload()),
            r == Err::<SerializedDataChunk, _>(PsDataChunkError::DecryptionError) || exists|p: Seq<u8>|
                #[trigger] reads_as(r, p),
    {
        decrypt(buffer_as_slice(&self.data), &self.key)
    }
}

impl DataChunk for EncryptedDataChunk {
    open spec fn data_view(&self) -> Seq<u8> {
        self.payload()
    }

    open spec fn hash_view(&self) -> Seq<u8> {
        self.fingerprint()
    }

    fn data_ref(&self) -> (r: &[u8]) {
        buffer_as_slice(&self.data)
    }

    fn hash_ref(&self) -> (r: &ContentHash) {
        &self.hash
    }

    fn hash(&self) -> (r: ContentHash) {
        self.hash
    }
}

} // verus!
