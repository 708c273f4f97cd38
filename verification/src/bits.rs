//! Extraction of bit ranges from a 64-bit register value.

use bit_field::BitField;
use vstd::arithmetic::power2::*;
use vstd::bits::*;
use vstd::prelude::*;

verus! {

/// The bits `[start, end)` of `register`, read as a number of their own:
/// bit `start` of the register is bit 0 of the result.
pub open spec fn bit_range(register: u64, start: nat, end: nat) -> u64 {
    ((register as nat / pow2(start)) % pow2((end - start) as nat)) as u64
}

/// The same range, cut out by shifting the higher bits off to the left and
/// everything back down to the right.
pub open spec fn shifted_range(register: u64, start: u64, end: u64) -> u64 {
    ((register << ((64 - end) as u64)) >> ((64 - end) as u64)) >> start
}

/// `bit_field`'s `BitField::get_bits` on a `u64`, for a half-open range
/// `start..end`. For a non-empty range within the 64 bits the crate shifts
/// the value left by `64 - end`, right again by the same amount and then
/// right by `start`; the contract repeats that. Outside these ranges the
/// crate panics, so they are excluded.
#[verifier::external_body]
pub(crate) fn get_bits(register: u64, start: usize, end: usize) -> (value: u64)
    requires
        start < end <= 64,
    ensures
        value == shifted_range(register, start as u64, end as u64),
{
    register.get_bits(start..end)
}

/// Shifting the high bits out and back is masking: what is left of
/// `register >> start` are its lowest `end - start` bits.
proof fn lemma_shifted_is_masked(register: u64, start: u64, end: u64)
    requires
        start < end <= 64,
        end - start < 64,
    ensures
        shifted_range(register, start, end) == (register >> start) & (((1u64 << ((end
            - start) as u64)) - 1) as u64),
{
    let up: u64 = (64 - end) as u64;
    let width: u64 = (end - start) as u64;
    let kept: u64 = u64::MAX >> up;
    assert((register << up) >> up == register & (u64::MAX >> up)) by (bit_vector)
        requires
            up < 64,
    ;
    assert((register & kept) >> start == (register >> start) & (kept >> start)) by (bit_vector);
    assert((u64::MAX >> up) >> start == u64::MAX >> ((up + start) as u64)) by (bit_vector)
        requires
            up + start < 64,
    ;
    assert(u64::MAX >> ((64 - width) as u64) == ((1u64 << width) - 1) as u64) by (bit_vector)
        requires
            0 < width < 64,
    ;
}

/// The shifts of `get_bits` compute the arithmetic `bit_range`.
pub proof fn lemma_shifted_range_is_bit_range(register: u64, start: u64, end: u64)
    requires
        start < end <= 64,
    ensures
        shifted_range(register, start, end) == bit_range(register, start as nat, end as nat),
{
    let width: nat = (end - start) as nat;
    lemma2_to64();
    lemma2_to64_rest();
    if width == 64 {
        assert(start == 0 && end == 64);
        assert(((register << 0u64) >> 0u64) >> 0u64 == register) by (bit_vector);
        assert(register as nat / 1 == register as nat);
        assert(register as nat % 0x1_0000_0000_0000_0000 == register as nat);
    } else {
        lemma_shifted_is_masked(register, start, end);
        let low: u64 = register >> start;
        lemma_u64_shr_is_div(register, start);
        lemma_u64_pow2_no_overflow(width);
        lemma_u64_shl_is_mul(1u64, width as u64);
        assert((1u64 << (width as u64)) == pow2(width));
        lemma_pow2_pos(width);
        assert(((1u64 << (width as u64)) - 1) as u64 == low_bits_mask(width));
        lemma_u64_low_bits_mask_is_mod(low, width);
    }
}

/// A range of `end - start` bits holds a number below `2^(end - start)`,
/// and the quotient and remainder that define it fit in 64 bits.
pub proof fn lemma_bit_range_bound(register: u64, start: nat, end: nat)
    ensures
        bit_range(register, start, end) as nat == (register as nat / pow2(start)) % pow2(
            (end - start) as nat,
        ),
        (bit_range(register, start, end) as nat) < pow2((end - start) as nat),
        bit_range(register, start, end) <= register,
{
    let high: nat = register as nat / pow2(start);
    let modulus: nat = pow2((end - start) as nat);
    lemma_pow2_pos(start);
    lemma_pow2_pos((end - start) as nat);
    vstd::arithmetic::div_mod::lemma_div_is_ordered_by_denominator(register as int, 1, pow2(start) as int);
    vstd::arithmetic::div_mod::lemma_mod_decreases(high, modulus);
}

} // verus!
