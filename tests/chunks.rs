use std::sync::Arc;

use ps_datachunk::{
    AlignedDataChunk, BorrowedDataChunk, ContentHash, CowDataChunk, DataChunk, OwnedDataChunk,
    PsDataChunkError, SerializedDataChunk, SharedDataChunk, TypedDataChunk,
};

use ps_datachunk::Result;

fn aligned_vec(data: &[u8]) -> rkyv::util::AlignedVec {
    let mut v = rkyv::util::AlignedVec::<16>::new();
    v.extend_from_slice(data);
    v
}

#[test]
fn test_encryption_decryption() -> Result<()> {
    let original_data = "Neboť tak Bůh miluje svět, že dal [svého] jediného Syna, aby žádný, kdo v něho věří, nezahynul, ale měl život věčný. Vždyť Bůh neposlal [svého] Syna na svět, aby svět odsoudil, ale aby byl svět skrze něj zachráněn.".as_bytes().to_owned();

    let data_chunk = BorrowedDataChunk::from_data(&original_data)?;

    let encrypted_chunk = data_chunk.encrypt()?;
    let decrypted_chunk = encrypted_chunk.decrypt()?;

    assert_eq!(decrypted_chunk.data_ref(), original_data);

    Ok(())
}

#[test]
fn test_serialization() -> Result<()> {
    let original_data = vec![1, 2, 3, 4, 5];
    let hash = ContentHash::of(&original_data)?;
    let data_chunk = OwnedDataChunk::from_data_and_hash(original_data.clone(), hash);

    let serialized = data_chunk.serialize()?;

    assert_eq!(serialized.data_ref(), original_data);

    Ok(())
}

#[test]
fn test_owned_datachunk_to_bytes_from_ref() -> Result<()> {
    let original_data = vec![1, 2, 3, 4, 5];
    let data_chunk = OwnedDataChunk::from_data(original_data.clone())?;

    let bytes = data_chunk.clone().into_bytes();

    assert_eq!(bytes.as_ref(), original_data);

    Ok(())
}

#[test]
fn test_owned_datachunk_try_from_arc() -> Result<()> {
    let original_data: Arc<[u8]> = Arc::from(vec![9, 8, 7, 6]);
    let data_chunk = OwnedDataChunk::from_data(original_data.to_vec())?;

    assert_eq!(data_chunk.data_ref(), original_data.as_ref());
    assert_eq!(data_chunk.hash(), ContentHash::of(&original_data)?);

    Ok(())
}

#[test]
fn test_owned_datachunk_try_from_arc_ref() -> Result<()> {
    let original_data: Arc<[u8]> = Arc::from(vec![9, 8, 7, 6]);
    let data_chunk = OwnedDataChunk::from_data(original_data.as_ref().to_vec())?;

    assert_eq!(data_chunk.data_ref(), original_data.as_ref());
    assert_eq!(data_chunk.hash(), ContentHash::of(&original_data)?);

    Ok(())
}

#[test]
fn typed_ref_returns_checked_ref() -> Result<()> {
    let chunk = AlignedDataChunk::try_from(&42_u32)?;
    let typed = TypedDataChunk::<AlignedDataChunk, u32>::from_data_chunk(chunk)?;

    let first = rkyv::access::<rkyv::Archived<u32>, rancor::Error>(typed.data_ref())
        .map_err(|_| PsDataChunkError::InvalidArchive)?;
    let second = rkyv::access::<rkyv::Archived<u32>, rancor::Error>(typed.data_ref())
        .map_err(|_| PsDataChunkError::InvalidArchive)?;

    assert_eq!(*first, 42_u32);
    assert_eq!(*second, *first);

    Ok(())
}

#[test]
fn from_data_chunk_rejects_invalid_archive() {
    let chunk = OwnedDataChunk::from_data(vec![1_u8, 2, 3]).expect("hashing failed");

    let result = TypedDataChunk::<OwnedDataChunk, u32>::from_data_chunk(chunk);

    assert!(matches!(result, Err(PsDataChunkError::InvalidArchive)));
}

#[test]
fn typed_view_follows_the_validator() -> Result<()> {
    let good = AlignedDataChunk::try_from(&7_u64)?;
    let verdict = ps_datachunk::check_byte_layout::<u64>(good.data_ref());
    assert!(verdict);
    assert!(TypedDataChunk::<AlignedDataChunk, u64>::from_data_chunk(good).is_ok());

    let bad = OwnedDataChunk::from_data(vec![1_u8])?;
    assert!(!ps_datachunk::check_byte_layout::<u64>(bad.data_ref()));

    let owned = OwnedDataChunk::from_data(vec![1_u8, 2])?;
    let rejected = TypedDataChunk::<OwnedDataChunk, u8>::from_checked(owned, false);
    assert!(matches!(rejected, Err(PsDataChunkError::InvalidArchive)));
    let owned = OwnedDataChunk::from_data(vec![1_u8, 2])?;
    let accepted = TypedDataChunk::<OwnedDataChunk, u8>::from_checked(owned, true)?;
    assert_eq!(accepted.data_ref(), &[1_u8, 2][..]);
    Ok(())
}

#[test]
fn wrong_key_gives_decryption_error() -> Result<()> {
    let text = "Příliš žluťoučký kůň úpěl ďábelské ódy".as_bytes().to_vec();
    let chunk = OwnedDataChunk::from_data(text.clone())?;
    let encrypted = chunk.encrypt()?;

    let decrypted = encrypted.decrypt()?;
    assert_eq!(decrypted.data_ref(), text.as_slice());

    let wrong_key = ps_hash::hash(b"some other key").expect("hashing failed");
    let result = ps_datachunk::cipher::decrypt(encrypted.data_ref(), &wrong_key);
    assert!(matches!(result, Err(PsDataChunkError::DecryptionError)));
    Ok(())
}

#[test]
fn encrypted_chunk_hashes_its_ciphertext() -> Result<()> {
    let chunk = OwnedDataChunk::from_data(b"ciphertext is addressed by its own hash".to_vec())?;
    let encrypted = chunk.encrypt()?;
    assert_ne!(encrypted.data_ref(), chunk.data_ref());
    assert_eq!(encrypted.hash(), ContentHash::of(encrypted.data_ref())?);
    Ok(())
}

#[test]
fn every_representation_reports_the_same_chunk() -> Result<()> {
    let data = b"one payload, many owners".to_vec();
    let hash = ContentHash::of(&data)?;

    let owned = OwnedDataChunk::from_data(data.clone())?;
    let borrowed = BorrowedDataChunk::from_data(&data)?;
    let shared = SharedDataChunk::from_data(Arc::new(data.clone()))?;
    let serialized = SerializedDataChunk::from_data(&data)?;
    let aligned = AlignedDataChunk::from_data_vec(aligned_vec(&data))?;

    for (payload, h) in [
        (owned.data_ref(), owned.hash()),
        (borrowed.data_ref(), borrowed.hash()),
        (shared.data_ref(), shared.hash()),
        (serialized.data_ref(), serialized.hash()),
        (aligned.data_ref(), aligned.hash()),
    ] {
        assert_eq!(payload, data.as_slice());
        assert_eq!(h, hash);
    }
    assert_eq!(shared.data().as_slice(), data.as_slice());
    assert_eq!(borrowed.borrow().data_ref(), data.as_slice());
    assert_eq!(*shared.hash_ref(), hash);
    Ok(())
}

#[test]
fn cow_chunk_dispatches_to_its_variant() -> Result<()> {
    let data = vec![4_u8, 5, 6];
    let borrowed = CowDataChunk::Borrowed(BorrowedDataChunk::from_data(&data)?);
    let owned = CowDataChunk::Owned(OwnedDataChunk::from_data(data.clone())?);
    let shared = CowDataChunk::from_shared(SharedDataChunk::from_data(Arc::new(data.clone()))?);
    assert_eq!(borrowed.data_ref(), data.as_slice());
    assert_eq!(owned.hash(), borrowed.hash());
    assert_eq!(shared.data_ref(), data.as_slice());
    assert_eq!(borrowed.into_bytes().as_ref(), data.as_slice());
    Ok(())
}

#[test]
fn align_twice_gives_identical_bytes() -> Result<()> {
    let data = vec![7_u8; 13];
    let chunk = OwnedDataChunk::from_data(data.clone())?;
    let once = chunk.align();
    let once_bytes = once.aligned_bytes().to_vec();
    let twice = once.align();
    assert_eq!(twice.aligned_bytes(), once_bytes.as_slice());
    assert_eq!(twice.len(), 13);
    assert!(!twice.is_empty());
    assert_eq!(twice.data_ref(), data.as_slice());
    Ok(())
}

#[test]
fn into_owned_twice_gives_same_bytes() -> Result<()> {
    let data = vec![3_u8, 1, 4, 1, 5];
    let borrowed = BorrowedDataChunk::from_data(&data)?;
    let once = borrowed.into_owned();
    let twice = once.clone().into_owned();
    assert_eq!(once.data_ref(), data.as_slice());
    assert_eq!(twice.data_ref(), once.data_ref());
    assert_eq!(twice.hash(), once.hash());
    Ok(())
}

#[test]
fn serialized_chunk_parts() -> Result<()> {
    let data = vec![10_u8, 20, 30];
    let chunk = SerializedDataChunk::from_data(&data)?;
    assert_eq!(chunk.data_length(), 3);
    assert!(!chunk.is_empty());
    assert_eq!(chunk.serialized_bytes().len(), 80);
    let bytes = chunk.serialized_bytes().to_vec();
    let back = SerializedDataChunk::from_serialized_buffer(
        ps_buffer::Buffer::from_slice(&bytes).expect("allocation failed"),
    )?;
    assert_eq!(back.data_ref(), data.as_slice());
    let (buffer, hash) = back.into_parts();
    assert_eq!(buffer.as_slice(), bytes.as_slice());
    assert_eq!(hash, ContentHash::of(&data)?);

    let empty = SerializedDataChunk::from_data(&[])?;
    assert!(empty.is_empty());
    assert_eq!(empty.into_buffer().len(), 72);
    Ok(())
}

#[test]
fn try_from_parts_checks_hash_length() -> Result<()> {
    let data = vec![1_u8, 2];
    let result = SerializedDataChunk::try_from_parts(&data, &[0_u8; 3]);
    assert!(matches!(result, Err(PsDataChunkError::InvalidLength(3))));

    let hash = ContentHash::of(&data)?;
    let chunk = SerializedDataChunk::try_from_parts(&data, hash.as_bytes())?;
    assert_eq!(chunk.hash(), hash);
    assert_eq!(chunk.data_ref(), data.as_slice());
    Ok(())
}

#[test]
fn hash_cow_holds_the_same_hash() -> Result<()> {
    let hash = ContentHash::of(b"cow")?;
    let borrowed = ps_datachunk::HashCow::from_ref(&hash);
    let owned = ps_datachunk::HashCow::from_hash(hash);
    let shared = ps_datachunk::HashCow::from_arc(Arc::new(hash));
    assert_eq!(*borrowed.to_ref(), hash);
    assert_eq!(*owned.to_arc(), hash);
    assert_eq!(*shared.to_ref(), hash);
    assert_eq!(*borrowed.to_arc(), hash);
    Ok(())
}

#[test]
fn abstract_view_matches_chunk() -> Result<()> {
    let data = vec![2_u8; 9];
    let owned = OwnedDataChunk::from_data(data.clone())?;
    let expected = ContentHash::of(&data)?;
    assert_eq!(ps_datachunk::AbstractDataChunk::data(&owned), data.as_slice());
    assert_eq!(ps_datachunk::AbstractDataChunk::hash(&owned), expected.as_bytes());
    let aligned = AlignedDataChunk::from_data_vec(aligned_vec(&data))?;
    assert_eq!(ps_datachunk::AbstractDataChunk::data(&aligned), data.as_slice());
    let cow = CowDataChunk::Owned(owned);
    assert_eq!(ps_datachunk::AbstractDataChunk::hash(&cow), expected.as_bytes());
    Ok(())
}

#[test]
fn aligned_chunk_is_aligned_in_memory() -> Result<()> {
    let chunk = AlignedDataChunk::try_from(&123_456_u64)?;
    assert_eq!(chunk.aligned_bytes().as_ptr() as usize % 16, 0);
    assert_eq!(chunk.aligned_bytes().len() % 8, 0);
    Ok(())
}

#[test]
fn serialized_buffer_is_kept_as_given() -> Result<()> {
    let data = vec![1_u8, 2, 3, 4, 5];
    let mut bytes = SerializedDataChunk::from_data(&data)?.serialized_bytes().to_vec();
    bytes[6] = 0xee;
    let chunk = SerializedDataChunk::from_serialized_buffer(
        ps_buffer::Buffer::from_slice(&bytes).expect("allocation failed"),
    )?;
    assert_eq!(chunk.serialized_bytes(), bytes.as_slice());
    assert_eq!(chunk.data_ref(), data.as_slice());

    bytes[1] ^= 1;
    let result = SerializedDataChunk::from_serialized_buffer(
        ps_buffer::Buffer::from_slice(&bytes).expect("allocation failed"),
    );
    assert!(matches!(result, Err(PsDataChunkError::InvalidHash)));
    Ok(())
}

#[test]
fn decrypted_plaintext_is_read_like_a_buffer() -> Result<()> {
    let missing = ps_datachunk::cipher::read_plaintext(None);
    assert!(matches!(missing, Err(PsDataChunkError::DecryptionError)));
    let short = ps_buffer::Buffer::from_slice([0_u8; 10]).expect("allocation failed");
    let result = ps_datachunk::cipher::read_plaintext(Some(short));
    assert!(matches!(result, Err(PsDataChunkError::InvalidDataChunk)));
    let good = SerializedDataChunk::from_data(b"plain")?.into_buffer();
    let chunk = ps_datachunk::cipher::read_plaintext(Some(good))?;
    assert_eq!(chunk.data_ref(), b"plain");
    Ok(())
}
