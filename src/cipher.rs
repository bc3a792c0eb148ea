//! The bridge to the cipher: encrypting serialized buffers and reading
//! decrypted plaintext back as serialized chunks.

use crate::buffer::buffer_content;
use crate::error::PsDataChunkError;
use crate::hash::hash_of;
use crate::layout::HASH_SIZE;
use crate::serialized::{reads_as, SerializedDataChunk};
use vstd::prelude::*;

verus! {

#[verifier::external_type_specification]
#[verifier::external_body]
pub struct ExEncryptionError(ps_cypher::EncryptionError);

#[verifier::external_type_specification]
#[verifier::external_body]
pub struct ExDecryptionError(ps_cypher::DecryptionError);

/// The ciphertext that `ps_cypher::encrypt` produces for `plaintext`. The
/// encryption is convergent: the key and the nonce come from the hash of the
/// plaintext, which is compressed by one-shot zstd at a fixed level, so the
/// ciphertext depends on the plaintext alone.
pub uninterp spec fn ciphertext_of(plaintext: Seq<u8>) -> Seq<u8>;

/// Relies on `ps_cypher::encrypt`, which returns the ciphertext, the hash
/// of the ciphertext (`Hash::hash(&bytes)` in its source) and the key. The
/// hash is turned into its base64url form with ps_hash's `From<Hash> for [u8; 64]`.
#[verifier::external_body]
pub(crate) fn cipher_encrypt(plaintext: &[u8]) -> (r: Result<
    (ps_buffer::Buffer, [u8; HASH_SIZE], ps_hash::Hash),
    ps_cypher::EncryptionError,
>)
    ensures
        r matches Ok((ciphertext, hash, _)) ==> buffer_content(ciphertext) == ciphertext_of(
            plaintext@,
        ) && hash@ == hash_of(buffer_content(ciphertext)),
{
    match ps_cypher::encrypt(plaintext) {
        Ok(e) => Ok((e.bytes, e.hash.into(), e.key)),
        Err(e) => Err(e),
    }
}

/// Relies on `ps_cypher::decrypt`, which decrypts `ciphertext` with `key`.
#[verifier::external_body]
fn cipher_decrypt(ciphertext: &[u8], key: &ps_hash::Hash) -> (r: Result<
    ps_buffer::Buffer,
    ps_cypher::DecryptionError,
>) {
    ps_cypher::decrypt(ciphertext, key)
}

/// Reads the outcome of a decryption: `None` when the cipher failed,
/// otherwise the plaintext, read as a serialized buffer whose payload is
/// checked against its stored hash.
pub fn read_plaintext(plaintext: Option<ps_buffer::Buffer>) -> (r: Result<
    SerializedDataChunk,
    PsDataChunkError,
>)
    ensures
        plaintext is None ==> r == Err::<SerializedDataChunk, _>(PsDataChunkError::DecryptionError),
        plaintext matches Some(p) ==> reads_as(r, buffer_content(p)),
{
    match plaintext {
        Some(p) => SerializedDataChunk::from_serialized_buffer(p),
        None => Err(PsDataChunkError::DecryptionError),
    }
}

/// Decrypts `encrypted` with `key` and reads the plaintext as a serialized
/// buffer, whose payload is checked against its stored hash. A failure of
/// the cipher (a wrong key, a damaged ciphertext) gives `DecryptionError`;
/// otherwise the result is what reading the plaintext gives.
pub fn decrypt(encrypted: &[u8], key: &ps_hash::Hash) -> (r: Result<
    SerializedDataChunk,
    PsDataChunkError,
>)
    ensures
        r == Err::<SerializedDataChunk, _>(PsDataChunkError::DecryptionError) || exists|p: Seq<u8>|
            #[trigger] reads_as(r, p),
        r matches Ok(c) ==> c.fingerprint() == hash_of(c.payload()),
{
    let plaintext = match cipher_decrypt(encrypted, key) {
        Ok(plaintext) => Some(plaintext),
        Err(_) => None,
    };
    read_plaintext(plaintext)
}

} // verus!
