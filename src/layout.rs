//! Placement of the payload, the content hash and the length field inside a
//! serialized buffer.

use vstd::arithmetic::div_mod::{lemma_fundamental_div_mod, lemma_mod_multiples_basic};
use vstd::arithmetic::power2::{lemma2_to64, lemma_pow2_pos, pow2};
use vstd::bits::{lemma_usize_pow2_no_overflow, lemma_usize_shl_is_mul, lemma_usize_shr_is_div};
use vstd::prelude::*;

verus! {

/// Width of a content hash on the wire, in bytes.
pub const HASH_SIZE: usize = 64;

/// Width of the length field, in bytes: a little-endian 64-bit word.
pub const SIZE_SIZE: usize = 8;

/// The hash field starts on a multiple of `2^HASH_ALIGNMENT`.
///
/// Both alignments are eight bytes, and the hash is a multiple of eight bytes
/// long: the length field then follows the hash directly and ends the buffer,
/// so a reader finds both by rounding down from the end of the buffer.
pub const HASH_ALIGNMENT: usize = 3;

/// The length field starts on a multiple of `2^SIZE_ALIGNMENT`.
pub const SIZE_ALIGNMENT: usize = 3;

/// The smallest multiple of `2^scale` that is at least `value`.
pub open spec fn round_up_spec(value: int, scale: nat) -> int {
    if value <= 0 {
        0
    } else {
        ((value - 1) / pow2(scale) as int + 1) * pow2(scale) as int
    }
}

/// The largest multiple of `2^scale` that is at most `value`.
pub open spec fn round_down_spec(value: int, scale: nat) -> int {
    (value / pow2(scale) as int) * pow2(scale) as int
}

/// Offset of the hash field for a payload of `n` bytes.
pub open spec fn hash_offset_spec(n: int) -> int {
    round_up_spec(n, HASH_ALIGNMENT as nat)
}

/// Offset of the length field for a payload of `n` bytes.
pub open spec fn size_offset_spec(n: int) -> int {
    round_up_spec(hash_offset_spec(n) + HASH_SIZE, SIZE_ALIGNMENT as nat)
}

/// Length of the whole serialized buffer for a payload of `n` bytes.
pub open spec fn total_size_spec(n: int) -> int {
    round_up_spec(size_offset_spec(n) + SIZE_SIZE, HASH_ALIGNMENT as nat)
}

/// Whether the serialized buffer of a payload of `n` bytes fits within the
/// address space.
pub open spec fn fits_layout(n: int) -> bool {
    0 <= n && total_size_spec(n) <= usize::MAX
}

/// Facts about rounding up that hold for any non-negative value.
pub proof fn lemma_round_up(value: int, scale: nat)
    requires
        value >= 0,
    ensures
        round_up_spec(value, scale) % pow2(scale) as int == 0,
        value <= round_up_spec(value, scale) < value + pow2(scale),
        value % pow2(scale) as int == 0 ==> round_up_spec(value, scale) == value,
{
    let p = pow2(scale) as int;
    lemma_pow2_pos(scale);
    if value > 0 {
        let q = (value - 1) / p;
        lemma_fundamental_div_mod(value - 1, p);
        lemma_mod_multiples_basic(q + 1, p);
        assert((q + 1) * p == q * p + p) by (nonlinear_arith);
        if value % p == 0 {
            lemma_fundamental_div_mod(value, p);
            let k = value / p;
            assert(value == k * p);
            assert(k >= 1) by (nonlinear_arith)
                requires
                    value == k * p,
                    value > 0,
                    p > 0,
            ;
            assert(value - 1 == (k - 1) * p + (p - 1)) by (nonlinear_arith)
                requires
                    value == k * p,
            ;
            vstd::arithmetic::div_mod::lemma_fundamental_div_mod_converse(value - 1, p, k - 1, p - 1);
        }
    } else {
        assert(0int % p == 0);
    }
}

/// Facts about rounding down that hold for any non-negative value.
pub proof fn lemma_round_down(value: int, scale: nat)
    requires
        value >= 0,
    ensures
        round_down_spec(value, scale) % pow2(scale) as int == 0,
        value - pow2(scale) < round_down_spec(value, scale) <= value,
        0 <= round_down_spec(value, scale),
{
    let p = pow2(scale) as int;
    lemma_pow2_pos(scale);
    lemma_fundamental_div_mod(value, p);
    lemma_mod_multiples_basic(value / p, p);
    assert(value / p >= 0) by (nonlinear_arith)
        requires
            value >= 0,
            p > 0,
    ;
    assert((value / p) * p >= 0) by (nonlinear_arith)
        requires
            value / p >= 0,
            p > 0,
    ;
}

/// Rounds `value` up to the next multiple of `2^scale` (zero stays zero).
pub fn round_up(value: usize, scale: usize) -> (r: usize)
    requires
        scale < usize::BITS,
        round_up_spec(value as int, scale as nat) <= usize::MAX,
    ensures
        r == round_up_spec(value as int, scale as nat),
{
    if value == 0 {
        0
    } else {
        let q = (value - 1) >> scale;
        proof {
            lemma_usize_shr_is_div((value - 1) as usize, scale);
            lemma_pow2_pos(scale as nat);
            lemma_usize_pow2_no_overflow(scale as nat);
            assert(q + 1 <= usize::MAX) by (nonlinear_arith)
                requires
                    (q + 1) * pow2(scale as nat) <= usize::MAX,
                    pow2(scale as nat) > 0,
            ;
        }
        let q1 = q + 1;
        proof {
            lemma_usize_shl_is_mul(q1, scale);
        }
        q1 << scale
    }
}

/// Rounds `value` down to a multiple of `2^scale`.
pub fn round_down(value: usize, scale: usize) -> (r: usize)
    requires
        scale < usize::BITS,
    ensures
        r == round_down_spec(value as int, scale as nat),
{
    let q = value >> scale;
    proof {
        lemma_usize_shr_is_div(value, scale);
        lemma_pow2_pos(scale as nat);
        lemma_round_down(value as int, scale as nat);
        lemma_usize_shl_is_mul(q, scale);
    }
    q << scale
}

/// The layout invariants: each field starts on its alignment boundary, the
/// hash field follows the payload, the length field follows the hash, and the
/// buffer ends right after the length field.
pub proof fn lemma_layout_invariants(n: int)
    requires
        n >= 0,
    ensures
        hash_offset_spec(n) % 8 == 0,
        size_offset_spec(n) % 8 == 0,
        total_size_spec(n) % 8 == 0,
        n <= hash_offset_spec(n) < n + 8,
        size_offset_spec(n) == hash_offset_spec(n) + HASH_SIZE,
        total_size_spec(n) == size_offset_spec(n) + SIZE_SIZE,
        size_offset_spec(n) >= hash_offset_spec(n) + HASH_SIZE,
{
    lemma2_to64();
    let h = hash_offset_spec(n);
    lemma_round_up(n, HASH_ALIGNMENT as nat);
    lemma_round_up(h + HASH_SIZE, SIZE_ALIGNMENT as nat);
    lemma_round_up(size_offset_spec(n) + SIZE_SIZE, HASH_ALIGNMENT as nat);
}

/// A payload that ends at or before an aligned offset has its hash field
/// at or before that offset.
pub proof fn lemma_hash_offset_bounded(n: int, bound: int)
    requires
        0 <= n <= bound,
        bound % 8 == 0,
    ensures
        hash_offset_spec(n) <= bound,
{
    lemma2_to64();
    lemma_round_up(n, HASH_ALIGNMENT as nat);
    let h = hash_offset_spec(n);
    if h > bound {
        // Both are multiples of 8 and n <= bound < h < n + 8.
        assert(false) by (nonlinear_arith)
            requires
                h % 8 == 0,
                bound % 8 == 0,
                n <= bound,
                bound < h,
                h < n + 8,
        ;
    }
}

/// Whether a payload of `n` bytes can be laid out: the executable form of
/// `fits_layout`.
pub fn layout_fits(n: usize) -> (r: bool)
    ensures
        r == fits_layout(n as int),
{
    proof {
        lemma_layout_invariants(n as int);
    }
    if n > usize::MAX - (HASH_SIZE + SIZE_SIZE) {
        return false;
    }
    round_up(n, HASH_ALIGNMENT) <= usize::MAX - (HASH_SIZE + SIZE_SIZE)
}

/// Computes `(hash_offset, size_offset, total_size)` for a payload of
/// `data_size` bytes.
pub fn offsets(data_size: usize) -> (r: (usize, usize, usize))
    requires
        fits_layout(data_size as int),
    ensures
        r.0 == hash_offset_spec(data_size as int),
        r.1 == size_offset_spec(data_size as int),
        r.2 == total_size_spec(data_size as int),
        r.0 % 8 == 0,
        r.1 % 8 == 0,
        r.2 % 8 == 0,
        data_size <= r.0 < data_size + 8,
        r.1 == r.0 + HASH_SIZE,
        r.2 == r.1 + SIZE_SIZE,
{
    proof {
        lemma_layout_invariants(data_size as int);
        lemma2_to64();
    }
    let hash_offset = round_up(data_size, HASH_ALIGNMENT);
    let size_offset = round_up(hash_offset + HASH_SIZE, SIZE_ALIGNMENT);
    let buffer_size = round_up(size_offset + SIZE_SIZE, HASH_ALIGNMENT);
    (hash_offset, size_offset, buffer_size)
}

} // verus!
