//! Content hashes: fixed-size fingerprints of byte sequences.

use crate::error::PsDataChunkError;
use crate::layout::HASH_SIZE;
use vstd::prelude::*;

verus! {

#[verifier::external_type_specification]
#[verifier::external_body]
pub struct ExHashError(ps_hash::HashError);

#[verifier::external_type_specification]
#[verifier::external_body]
pub struct ExHash(ps_hash::Hash);

/// The wire form of the content hash of `data`: what `ps_hash::hash`
/// computes, written out as its 64-byte base64url representation.
pub uninterp spec fn hash_of(data: Seq<u8>) -> Seq<u8>;

/// Relies on `ps_hash::hash`, which hashes `data`, and on the
/// `From<Hash> for [u8; 64]` conversion of ps_hash, which gives its base64url
/// form. Both depend on the bytes of `data` alone. `ps_hash::hash` returns a
/// `Result`, but never an error: it XORs two fixed-size digests, appends the
/// length and computes Reed-Solomon parity over that fixed 34-byte message
/// (ps-hash-core `hash_inner`), well within what ps-ecc's `generate_parity`
/// accepts, dividing by a generator whose leading coefficient is non-zero.
#[verifier::external_body]
fn external_hash(data: &[u8]) -> (r: Result<[u8; HASH_SIZE], ps_hash::HashError>)
    ensures
        r is Ok,
        r matches Ok(h) ==> h@ == hash_of(data@),
{
    match ps_hash::hash(data) {
        Ok(h) => Ok(h.into()),
        Err(e) => Err(e),
    }
}

/// A content hash as it stands on the wire.
#[derive(Clone, Copy, Debug)]
pub struct ContentHash {
    pub bytes: [u8; HASH_SIZE],
}

impl View for ContentHash {
    type V = Seq<u8>;

    open spec fn view(&self) -> Seq<u8> {
        self.bytes@
    }
}

impl ContentHash {
    /// Hashes `data`. Hashing does not fail.
    pub fn of(data: &[u8]) -> (r: Result<ContentHash, PsDataChunkError>)
        ensures
            r is Ok,
            r matches Ok(h) ==> h@ == hash_of(data@),
    {
        match external_hash(data) {
            Ok(bytes) => Ok(ContentHash { bytes }),
            Err(_) => Err(PsDataChunkError::HashError),
        }
    }

    /// The hash's bytes.
    pub fn as_bytes(&self) -> (r: &[u8])
        ensures
            r@ == self@,
            r@.len() == HASH_SIZE,
    {
        self.bytes.as_slice()
    }

    /// Whether `bytes` is exactly this hash.
    pub fn matches(&self, bytes: &[u8]) -> (r: bool)
        ensures
            r == (self@ == bytes@),
    {
        if bytes.len() != HASH_SIZE {
            return false;
        }
        let mut i: usize = 0;
        while i < HASH_SIZE
            invariant
                bytes@.len() == HASH_SIZE,
                self@.len() == HASH_SIZE,
                0 <= i <= HASH_SIZE,
                forall|j: int| 0 <= j < i ==> self@[j] == bytes@[j],
            decreases HASH_SIZE - i,
        {
            if self.bytes[i] != bytes[i] {
                return false;
            }
            i += 1;
        }
        proof {
            assert(self@ =~= bytes@);
        }
        true
    }
}

impl PartialEq for ContentHash {
    fn eq(&self, other: &ContentHash) -> (r: bool) {
        self.matches(other.as_bytes())
    }
}

impl vstd::std_specs::cmp::PartialEqSpecImpl for ContentHash {
    open spec fn obeys_eq_spec() -> bool {
        true
    }

    open spec fn eq_spec(&self, other: &ContentHash) -> bool {
        self@ == other@
    }
}

impl Eq for ContentHash {}

} // verus!
