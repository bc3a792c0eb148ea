//! The errors that chunk operations report.

use vstd::prelude::*;

verus! {

/// Why a chunk operation failed.
#[derive(Debug, Clone, Copy, PartialEq, Eq, Structural)]
pub enum PsDataChunkError {
    /// The buffer is too short, or its length field points into or past the
    /// hash field.
    InvalidDataChunk,
    /// The stored content hash differs from the hash of the payload.
    InvalidHash,
    /// A length that cannot describe the buffer it came with.
    InvalidLength(usize),
    /// A buffer could not be allocated.
    BufferError,
    /// The hash function reported a failure.
    HashError,
    /// The cipher could not encrypt the buffer.
    EncryptionError,
    /// The cipher could not decrypt the buffer: a wrong key or a damaged
    /// ciphertext.
    DecryptionError,
    /// A value could not be archived.
    SerializationError,
    /// The bytes are not a valid encoding of the requested record type.
    TypeError,
    /// The archive validator rejected the bytes.
    InvalidArchive,
}

/// The result of a chunk operation.
pub type Result<T> = core::result::Result<T, PsDataChunkError>;

} // verus!
