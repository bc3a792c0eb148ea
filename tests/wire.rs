use ps_datachunk::deserializer::{
    deserialize_bytes_to_parts, deserialize_vec_to_parts, deserialize_with_hash,
};
use ps_datachunk::layout::{offsets, HASH_SIZE};
use ps_datachunk::serializer::{
    serialize_bytes, serialize_bytes_with_known_hash, serialize_vec, serialize_vec_with_known_hash,
    serialize_vec_with_parameters,
};
use ps_datachunk::{ContentHash, PsDataChunkError};

#[test]
fn serialize_five_bytes_and_read_back() {
    let payload = vec![1_u8, 2, 3, 4, 5];
    let hash = ContentHash::of(&payload).unwrap();
    let buffer = serialize_bytes_with_known_hash(&payload, hash.as_bytes());
    assert_eq!(buffer.len(), offsets(5).2);
    assert_eq!(buffer.len(), 80);
    assert_eq!(&buffer[..5], &payload[..]);
    assert_eq!(&buffer[5..8], &[0, 0, 0]);
    assert_eq!(&buffer[8..72], hash.as_bytes());
    assert_eq!(&buffer[72..80], &5u64.to_le_bytes());

    let (data, back) = deserialize_bytes_to_parts(&buffer).unwrap();
    assert_eq!(data, payload);
    assert_eq!(back, hash);
}

#[test]
fn hash_is_not_the_payload() {
    let payload = b"abc".to_vec();
    let hash = ContentHash::of(&payload).unwrap();
    assert_eq!(hash.as_bytes().len(), HASH_SIZE);
    assert_ne!(&hash.as_bytes()[..3], &payload[..]);
    assert_eq!(hash, ContentHash::of(b"abc").unwrap());
    assert_ne!(hash, ContentHash::of(b"abd").unwrap());
    assert!(hash.matches(ContentHash::of(b"abc").unwrap().as_bytes()));
    assert!(!hash.matches(&payload));
}

#[test]
fn round_trip_many_payloads() {
    for len in [0usize, 1, 7, 8, 9, 63, 64, 65, 1000] {
        let payload: Vec<u8> = (0..len).map(|i| (i * 31 % 251) as u8).collect();
        let buffer = serialize_bytes(&payload).unwrap();
        assert_eq!(buffer.len(), offsets(len).2);
        let (data, hash) = deserialize_vec_to_parts(buffer).unwrap();
        assert_eq!(data, payload);
        assert_eq!(hash, ContentHash::of(&payload).unwrap());
    }
}

#[test]
fn repeated_byte_payloads_round_trip() {
    for i in 12..=256usize {
        let payload = vec![i as u8; i];
        let buffer = serialize_bytes(&payload).unwrap();
        let (hash_offset, size_offset, total) = offsets(i);
        assert_eq!(buffer.len(), total);
        assert_eq!(hash_offset % 8, 0);
        assert_eq!(size_offset % 8, 0);
        let (data, _) = deserialize_bytes_to_parts(&buffer).unwrap();
        assert_eq!(data, payload);
    }
}

#[test]
fn serialize_in_place() {
    let payload = vec![9_u8, 9, 9];
    let mut buffer = payload.clone();
    serialize_vec(&mut buffer).unwrap();
    assert_eq!(buffer, serialize_bytes(&payload).unwrap());

    let hash = ContentHash::of(&payload).unwrap();
    let mut other = payload.clone();
    serialize_vec_with_known_hash(&mut other, hash.as_bytes());
    assert_eq!(other, buffer);

    let mut framed = vec![1_u8];
    serialize_vec_with_parameters(&mut framed, &[7, 7], 300, 4, 8);
    assert_eq!(framed, vec![1, 0, 0, 0, 7, 7, 0, 0, 44, 1, 0, 0, 0, 0, 0, 0]);
}

#[test]
fn tampering_is_detected() {
    let payload = b"tamper".to_vec();
    let buffer = serialize_bytes(&payload).unwrap();
    let (hash_offset, _, _) = offsets(payload.len());
    for i in 0..hash_offset + HASH_SIZE {
        let mut bad = buffer.clone();
        bad[i] ^= 0x5a;
        let result = deserialize_bytes_to_parts(&bad);
        if i >= payload.len() && i < hash_offset {
            // padding: what comes back is the original payload
            assert_eq!(result.unwrap().0, payload);
        } else {
            assert!(matches!(result, Err(PsDataChunkError::InvalidHash)), "byte {i}");
        }
    }
}

#[test]
fn malformed_buffers_are_rejected() {
    assert!(matches!(
        deserialize_bytes_to_parts(&[0_u8; 71]),
        Err(PsDataChunkError::InvalidDataChunk)
    ));
    assert!(matches!(deserialize_bytes_to_parts(&[]), Err(PsDataChunkError::InvalidDataChunk)));

    let mut buffer = serialize_bytes(&[1, 2, 3]).unwrap();
    let len = buffer.len();
    buffer[len - 8..].copy_from_slice(&9u64.to_le_bytes());
    assert!(matches!(
        deserialize_bytes_to_parts(&buffer),
        Err(PsDataChunkError::InvalidDataChunk)
    ));
}

#[test]
fn deserialize_with_given_hash() {
    let payload = vec![5_u8; 20];
    let hash = ContentHash::of(&payload).unwrap();
    let buffer = serialize_bytes(&payload).unwrap();
    let (data, back) = deserialize_with_hash(&buffer, &hash).unwrap();
    assert_eq!(data, payload);
    assert_eq!(back, hash);

    let other = ContentHash::of(b"something else").unwrap();
    assert!(matches!(deserialize_with_hash(&buffer, &other), Err(PsDataChunkError::InvalidHash)));
    assert!(matches!(
        deserialize_with_hash(&buffer[..10], &hash),
        Err(PsDataChunkError::InvalidDataChunk)
    ));
}
