//! Content-addressed data chunks: payload bytes that always travel with a
//! fingerprint of their content, a self-describing wire layout for them, and
//! the checks that make a corrupted buffer fail loudly instead of decoding.

pub mod adc;
pub mod aligned;
pub mod borrowed;
pub mod buffer;
pub mod chunk;
pub mod cipher;
pub mod cow;
pub mod deserializer;
pub mod encrypted;
pub mod error;
pub mod hash;
pub mod hashcow;
pub mod layout;
pub mod mbuf;
pub mod owned;
pub mod serialized;
pub mod serializer;
pub mod shared;
pub mod typed;

pub use adc::AbstractDataChunk;
pub use aligned::AlignedDataChunk;
pub use borrowed::BorrowedDataChunk;
pub use chunk::DataChunk;
pub use cipher::decrypt;
pub use cow::CowDataChunk;
pub use encrypted::EncryptedDataChunk;
pub use error::{PsDataChunkError, Result};
pub use hash::ContentHash;
pub use hashcow::HashCow;
pub use layout::{offsets, round_down, round_up};
pub use mbuf::MbufDataChunk;
pub use owned::OwnedDataChunk;
pub use serialized::SerializedDataChunk;
pub use shared::SharedDataChunk;
pub use typed::{check_byte_layout, TypedDataChunk};
