//! Reading serialized buffers back: locating the length field and the hash
//! from the end of the buffer, and checking the payload against its hash.

use crate::error::PsDataChunkError;
use crate::hash::{hash_of, ContentHash};
use crate::layout::{
    fits_layout, hash_offset_spec, lemma_hash_offset_bounded, lemma_layout_invariants,
    lemma_round_down, round_down, round_down_spec, HASH_ALIGNMENT, HASH_SIZE, SIZE_ALIGNMENT,
    SIZE_SIZE,
};
use crate::serializer::{serialized_spec, zeros};
use vstd::arithmetic::power2::lemma2_to64;
use vstd::bytes::{
    lemma_auto_spec_u64_to_from_le_bytes, spec_u64_from_le_bytes, spec_u64_to_le_bytes,
    u64_from_le_bytes,
};
use vstd::prelude::*;
use vstd::slice::slice_to_vec;

verus! {

/// Offset of the length field in a buffer of `len` bytes.
pub open spec fn read_size_offset(len: int) -> int {
    round_down_spec(len - SIZE_SIZE, SIZE_ALIGNMENT as nat)
}

/// Offset of the hash field in a buffer of `len` bytes.
pub open spec fn read_hash_offset(len: int) -> int {
    round_down_spec(read_size_offset(len) - HASH_SIZE, HASH_ALIGNMENT as nat)
}

/// The payload length that the length field of `b` records.
pub open spec fn read_length(b: Seq<u8>) -> int {
    let so = read_size_offset(b.len() as int);
    spec_u64_from_le_bytes(b.subrange(so, so + SIZE_SIZE)) as int
}

/// Whether `b` is long enough and its length field ends before its hash
/// field starts.
pub open spec fn layout_ok(b: Seq<u8>) -> bool {
    &&& b.len() >= HASH_SIZE + SIZE_SIZE
    &&& read_length(b) <= read_hash_offset(b.len() as int)
}

/// The payload of `b`, as its length field delimits it.
pub open spec fn payload_of(b: Seq<u8>) -> Seq<u8> {
    b.subrange(0, read_length(b))
}

/// The hash stored in `b`.
pub open spec fn stored_hash_of(b: Seq<u8>) -> Seq<u8> {
    let ho = read_hash_offset(b.len() as int);
    b.subrange(ho, ho + HASH_SIZE)
}

/// What reading `b` gives when `computed` is the hash of its payload.
pub open spec fn deserialize_with_spec(b: Seq<u8>, computed: Seq<u8>) -> Result<
    (Seq<u8>, Seq<u8>),
    PsDataChunkError,
> {
    if !layout_ok(b) {
        Err(PsDataChunkError::InvalidDataChunk)
    } else if computed != stored_hash_of(b) {
        Err(PsDataChunkError::InvalidHash)
    } else {
        Ok((payload_of(b), computed))
    }
}

/// What reading `b` gives.
pub open spec fn deserialize_spec(b: Seq<u8>) -> Result<(Seq<u8>, Seq<u8>), PsDataChunkError> {
    deserialize_with_spec(b, hash_of(payload_of(b)))
}

/// The payload and hash of a result, as sequences.
pub open spec fn parts_view(r: Result<(Vec<u8>, ContentHash), PsDataChunkError>) -> Result<
    (Seq<u8>, Seq<u8>),
    PsDataChunkError,
> {
    match r {
        Ok((d, h)) => Ok((d@, h@)),
        Err(e) => Err(e),
    }
}

/// The offsets that reading a buffer of `len` bytes uses lie inside it.
proof fn lemma_read_offsets(len: int)
    requires
        len >= HASH_SIZE + SIZE_SIZE,
    ensures
        0 <= read_hash_offset(len),
        read_hash_offset(len) + HASH_SIZE <= read_size_offset(len),
        read_size_offset(len) + SIZE_SIZE <= len,
        read_size_offset(len) > len - SIZE_SIZE - 8,
{
    lemma2_to64();
    lemma_round_down(len - SIZE_SIZE, SIZE_ALIGNMENT as nat);
    let so = read_size_offset(len);
    assert(so >= HASH_SIZE) by {
        // HASH_SIZE is itself a multiple of the alignment, so rounding down
        // never goes below it.
        assert(so % 8 == 0);
        assert(so > len - SIZE_SIZE - 8);
    }
    lemma_round_down(so - HASH_SIZE, HASH_ALIGNMENT as nat);
}

/// The payload that a well-formed buffer delimits can itself be laid out.
pub proof fn lemma_accepted_fits(b: Seq<u8>)
    requires
        layout_ok(b),
        b.len() <= usize::MAX,
    ensures
        fits_layout(read_length(b)),
        read_length(b) <= b.len(),
{
    lemma2_to64();
    let len = b.len() as int;
    lemma_read_offsets(len);
    lemma_round_down(read_size_offset(len) - HASH_SIZE, HASH_ALIGNMENT as nat);
    lemma_hash_offset_bounded(read_length(b), read_hash_offset(len));
    lemma_layout_invariants(read_length(b));
}

/// Locates the payload: returns `(payload_length, hash_offset)`.
pub(crate) fn read_layout(buffer: &[u8]) -> (r: Result<(usize, usize), PsDataChunkError>)
    ensures
        r is Err <==> !layout_ok(buffer@),
        r matches Err(e) ==> e == PsDataChunkError::InvalidDataChunk,
        r is Ok ==> r->Ok_0.0 == read_length(buffer@),
        r is Ok ==> r->Ok_0.1 == read_hash_offset(buffer@.len() as int),
        r is Ok ==> r->Ok_0.1 + HASH_SIZE <= buffer@.len(),
{
    if buffer.len() < HASH_SIZE + SIZE_SIZE {
        return Err(PsDataChunkError::InvalidDataChunk);
    }
    proof {
        lemma_read_offsets(buffer@.len() as int);
    }
    let size_offset = round_down(buffer.len() - SIZE_SIZE, SIZE_ALIGNMENT);
    let length = u64_from_le_bytes(&buffer[size_offset..size_offset + SIZE_SIZE]);
    let hash_offset = round_down(size_offset - HASH_SIZE, HASH_ALIGNMENT);
    if length > hash_offset as u64 {
        return Err(PsDataChunkError::InvalidDataChunk);
    }
    Ok((length as usize, hash_offset))
}

/// Checks the layout of `buffer` and its stored hash against `computed`;
/// returns the payload length.
pub(crate) fn check_stored_hash(buffer: &[u8], computed: &ContentHash) -> (r: Result<usize, PsDataChunkError>)
    ensures
        r is Ok <==> deserialize_with_spec(buffer@, computed@) is Ok,
        r matches Ok(n) ==> n == read_length(buffer@) && n <= buffer@.len(),
        r matches Err(e) ==> deserialize_with_spec(buffer@, computed@) == Err::<
            (Seq<u8>, Seq<u8>),
            _,
        >(e),
{
    let (length, hash_offset) = match read_layout(buffer) {
        Ok(parts) => parts,
        Err(e) => return Err(e),
    };
    let total = buffer.len();
    assert(hash_offset + HASH_SIZE <= total);
    if !computed.matches(&buffer[hash_offset..hash_offset + HASH_SIZE]) {
        return Err(PsDataChunkError::InvalidHash);
    }
    Ok(length)
}

/// Reads `buffer`, given `computed`, the hash of its payload: checks the
/// layout, then the stored hash against `computed`.
pub fn deserialize_with_hash(buffer: &[u8], computed: &ContentHash) -> (r: Result<
    (Vec<u8>, ContentHash),
    PsDataChunkError,
>)
    ensures
        parts_view(r) == deserialize_with_spec(buffer@, computed@),
{
    let length = match check_stored_hash(buffer, computed) {
        Ok(length) => length,
        Err(e) => return Err(e),
    };
    let payload = slice_to_vec(&buffer[0..length]);
    Ok((payload, *computed))
}

/// Reads a serialized buffer back into its payload and content hash. The
/// hash of the payload is recomputed and must equal the stored one.
pub fn deserialize_bytes_to_parts(data: &[u8]) -> (r: Result<
    (Vec<u8>, ContentHash),
    PsDataChunkError,
>)
    ensures
        parts_view(r) == deserialize_spec(data@),
{
    let (length, _) = match read_layout(data) {
        Ok(parts) => parts,
        Err(e) => return Err(e),
    };
    let computed = match ContentHash::of(&data[0..length]) {
        Ok(h) => h,
        Err(e) => return Err(e),
    };
    deserialize_with_hash(data, &computed)
}

/// Reads a serialized buffer back, reusing its allocation for the payload.
pub fn deserialize_vec_to_parts(data: Vec<u8>) -> (r: Result<
    (Vec<u8>, ContentHash),
    PsDataChunkError,
>)
    ensures
        parts_view(r) == deserialize_spec(data@),
{
    let ghost original = data@;
    let mut data = data;
    let (length, _) = match read_layout(data.as_slice()) {
        Ok(parts) => parts,
        Err(e) => return Err(e),
    };
    let computed = match ContentHash::of(&data.as_slice()[0..length]) {
        Ok(h) => h,
        Err(e) => return Err(e),
    };
    if let Err(e) = check_stored_hash(data.as_slice(), &computed) {
        return Err(e);
    }
    data.truncate(length);
    proof {
        assert(data@ =~= payload_of(original));
    }
    Ok((data, computed))
}

/// Where the fields of a serialized buffer lie, and what they hold.
proof fn lemma_serialized_fields(s: Seq<u8>, h: Seq<u8>)
    requires
        fits_layout(s.len() as int),
        h.len() == HASH_SIZE,
    ensures
        ({
            let b = serialized_spec(s, h);
            let ho = hash_offset_spec(s.len() as int);
            &&& b.len() == ho + HASH_SIZE + SIZE_SIZE
            &&& read_size_offset(b.len() as int) == ho + HASH_SIZE
            &&& read_hash_offset(b.len() as int) == ho
            &&& b.subrange(0, s.len() as int) == s
            &&& b.subrange(ho, ho + HASH_SIZE) == h
            &&& b.subrange(ho + HASH_SIZE, ho + HASH_SIZE + SIZE_SIZE) == spec_u64_to_le_bytes(
                s.len() as u64,
            )
            &&& forall|j: int| s.len() <= j < ho ==> b[j] == 0u8
            &&& s.len() + HASH_SIZE + SIZE_SIZE <= usize::MAX
        }),
{
    let n = s.len() as int;
    lemma_layout_invariants(n);
    assert(n + HASH_SIZE + SIZE_SIZE <= usize::MAX);
    lemma_auto_spec_u64_to_from_le_bytes();
    lemma2_to64();
    let b = serialized_spec(s, h);
    let ho = hash_offset_spec(n);
    let le = spec_u64_to_le_bytes(n as u64);
    assert(zeros(ho + HASH_SIZE - (ho + HASH_SIZE)) =~= Seq::<u8>::empty());
    assert(b =~= s + zeros(ho - n) + h + le);
    assert(b.subrange(0, n) =~= s);
    assert(b.subrange(ho, ho + HASH_SIZE) =~= h);
    assert(b.subrange(ho + HASH_SIZE, ho + HASH_SIZE + SIZE_SIZE) =~= le);
    let so = ho + HASH_SIZE;
    lemma_round_down(b.len() - SIZE_SIZE, SIZE_ALIGNMENT as nat);
    vstd::arithmetic::div_mod::lemma_fundamental_div_mod_converse(so, 8, so / 8, 0);
    assert(read_size_offset(b.len() as int) == so) by {
        vstd::arithmetic::div_mod::lemma_div_multiples_vanish(so / 8, 8);
        assert(so == (so / 8) * 8);
    }
    assert(read_hash_offset(b.len() as int) == ho) by {
        vstd::arithmetic::div_mod::lemma_fundamental_div_mod_converse(ho, 8, ho / 8, 0);
        assert(ho == (ho / 8) * 8);
    }
}

/// How the serialized buffer of `s` with the hash `h` reads: its layout is
/// valid, its length field gives the length of `s`, its payload is `s` and
/// its stored hash is `h`.
pub proof fn lemma_serialized_reads(s: Seq<u8>, h: Seq<u8>)
    requires
        fits_layout(s.len() as int),
        h.len() == HASH_SIZE,
    ensures
        layout_ok(serialized_spec(s, h)),
        read_length(serialized_spec(s, h)) == s.len(),
        payload_of(serialized_spec(s, h)) == s,
        stored_hash_of(serialized_spec(s, h)) == h,
{
    lemma_serialized_fields(s, h);
    lemma_auto_spec_u64_to_from_le_bytes();
}

/// Reading back the serialized buffer of any payload `s`, written with its
/// content hash `h`, gives `s` and `h` again.
pub proof fn lemma_round_trip(s: Seq<u8>, h: ContentHash)
    requires
        fits_layout(s.len() as int),
        h@ == hash_of(s),
    ensures
        deserialize_spec(serialized_spec(s, h@)) == Ok::<_, PsDataChunkError>((s, h@)),
{
    lemma_serialized_reads(s, h@);
}

/// Changing one byte of the payload or of the stored hash of a serialized
/// buffer makes reading it fail with `InvalidHash`, as long as the changed
/// payload does not hash like the original one.
pub proof fn lemma_tamper_detected(s: Seq<u8>, h: ContentHash, i: int, v: u8)
    requires
        fits_layout(s.len() as int),
        h@ == hash_of(s),
        0 <= i < hash_offset_spec(s.len() as int) + HASH_SIZE,
        !(s.len() <= i < hash_offset_spec(s.len() as int)),
        v != serialized_spec(s, h@)[i],
        i < s.len() ==> hash_of(s.update(i, v)) != h@,
    ensures
        deserialize_spec(serialized_spec(s, h@).update(i, v)) == Err::<(Seq<u8>, Seq<u8>), _>(
            PsDataChunkError::InvalidHash,
        ),
{
    let n = s.len() as int;
    let ho = hash_offset_spec(n);
    let b = serialized_spec(s, h@);
    let t = b.update(i, v);
    lemma_serialized_fields(s, h@);
    lemma_auto_spec_u64_to_from_le_bytes();
    assert(t.subrange(ho + HASH_SIZE, ho + HASH_SIZE + SIZE_SIZE) =~= b.subrange(
        ho + HASH_SIZE,
        ho + HASH_SIZE + SIZE_SIZE,
    ));
    assert(read_length(t) == n);
    if i < n {
        assert(payload_of(t) =~= s.update(i, v));
        assert(stored_hash_of(t) =~= h@);
    } else {
        assert(payload_of(t) =~= s);
        assert(stored_hash_of(t)[i - ho] == v);
        assert(h@[i - ho] == b[i]);
    }
}

/// Changing one byte of the zero padding between the payload and the hash
/// leaves what reading the buffer gives unchanged.
pub proof fn lemma_padding_ignored(s: Seq<u8>, h: ContentHash, i: int, v: u8)
    requires
        fits_layout(s.len() as int),
        h@ == hash_of(s),
        s.len() <= i < hash_offset_spec(s.len() as int),
    ensures
        deserialize_spec(serialized_spec(s, h@).update(i, v)) == Ok::<_, PsDataChunkError>(
            (s, h@),
        ),
{
    let n = s.len() as int;
    let ho = hash_offset_spec(n);
    let b = serialized_spec(s, h@);
    let t = b.update(i, v);
    lemma_serialized_fields(s, h@);
    lemma_auto_spec_u64_to_from_le_bytes();
    assert(t.subrange(ho + HASH_SIZE, ho + HASH_SIZE + SIZE_SIZE) =~= b.subrange(
        ho + HASH_SIZE,
        ho + HASH_SIZE + SIZE_SIZE,
    ));
    assert(payload_of(t) =~= s);
    assert(stored_hash_of(t) =~= h@);
}

} // verus!
