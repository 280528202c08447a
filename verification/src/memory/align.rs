//! Rounding sizes to alignment boundaries.

use vstd::arithmetic::power::pow;
use vstd::arithmetic::power2::{
    is_pow2, is_pow2_equiv, pow2, lemma2_to64, lemma2_to64_rest, lemma_pow2, lemma_pow2_pos,
    lemma_pow2_strictly_increases,
};
use vstd::bits::{lemma_usize_low_bits_mask_is_mod, low_bits_mask};
use vstd::prelude::*;

verus! {

/// For a power of two, the bits below it are the remainder of the division
/// by it, and clearing them rounds down to a multiple of it.
pub proof fn lemma_mask_rounds_down(value: usize, alignment: usize)
    requires
        is_pow2(alignment as int),
    ensures
        value & ((alignment - 1) as usize) == value % alignment,
        value & !((alignment - 1) as usize) == value - value % alignment,
{
    is_pow2_equiv(alignment as int);
    let e = choose|e: nat| pow(2, e) == alignment as int;
    lemma_pow2(e);
    lemma_pow2_pos(e);
    assert(pow2(e) == alignment);
    if e >= usize::BITS {
        lemma2_to64();
        lemma2_to64_rest();
        if e > usize::BITS {
            lemma_pow2_strictly_increases(usize::BITS as nat, e);
        }
        assert(false);
    }
    lemma_usize_low_bits_mask_is_mod(value, e);
    let mask = (alignment - 1) as usize;
    assert(low_bits_mask(e) == mask);
    assert(value & !mask == value - (value & mask)) by (bit_vector);
}

/// Taking the remainder off a number leaves a multiple of the divisor.
proof fn lemma_less_remainder_is_multiple(value: int, divisor: int)
    requires
        value >= 0,
        divisor > 0,
    ensures
        (value - value % divisor) % divisor == 0,
{
    vstd::arithmetic::div_mod::lemma_fundamental_div_mod(value, divisor);
    vstd::arithmetic::div_mod::lemma_mod_multiples_basic(value / divisor, divisor);
    assert(value - value % divisor == (value / divisor) * divisor) by (nonlinear_arith)
        requires
            value == divisor * (value / divisor) + value % divisor,
    ;
}

/// Aligns a size up to the next multiple of the alignment.
///
/// The result is `size + alignment - 1` with the bits of `alignment - 1`
/// cleared; for a power of two that is the least multiple of `alignment`
/// that is not below `size`.
pub fn align_up(size: usize, alignment: usize) -> (r: usize)
    requires
        alignment > 0,
        size + alignment <= usize::MAX,
    ensures
        r == ((size + alignment - 1) as usize) & !((alignment - 1) as usize),
        is_pow2(alignment as int) ==> r % alignment == 0 && size <= r < size + alignment,
        is_pow2(alignment as int) ==> r == (size + alignment - 1) - (size + alignment - 1) % (
        alignment as int),
{
    proof {
        if is_pow2(alignment as int) {
            lemma_mask_rounds_down((size + alignment - 1) as usize, alignment);
            lemma_less_remainder_is_multiple(size + alignment - 1, alignment as int);
        }
    }
    (size + alignment - 1) & !(alignment - 1)
}

/// Aligns a size down to the previous multiple of the alignment.
///
/// The result is `size` with the bits of `alignment - 1` cleared; for a
/// power of two that is the greatest multiple of `alignment` that is not
/// above `size`.
pub fn align_down(size: usize, alignment: usize) -> (r: usize)
    requires
        alignment > 0,
    ensures
        r == size & !((alignment - 1) as usize),
        is_pow2(alignment as int) ==> r % alignment == 0 && r <= size < r + alignment,
{
    proof {
        if is_pow2(alignment as int) {
            lemma_mask_rounds_down(size, alignment);
            lemma_less_remainder_is_multiple(size as int, alignment as int);
        }
    }
    size & !(alignment - 1)
}

/// Checks if a size is aligned to the given alignment.
///
/// The result says whether `size` has none of the bits of `alignment - 1`;
/// for a power of two that is whether `size` is a multiple of `alignment`.
pub fn is_aligned(size: usize, alignment: usize) -> (r: bool)
    requires
        alignment > 0,
    ensures
        r == (size & ((alignment - 1) as usize) == 0),
        is_pow2(alignment as int) ==> r == (size % alignment == 0),
{
    proof {
        if is_pow2(alignment as int) {
            lemma_mask_rounds_down(size, alignment);
        }
    }
    size & (alignment - 1) == 0
}

/// Types of one byte are aligned to 1, and so is the type of no bytes: for
/// them no address is misaligned.
pub proof fn lemma_bytes_align_to_one()
    ensures
        vstd::layout::align_of::<u8>() == 1,
        vstd::layout::align_of::<i8>() == 1,
        vstd::layout::align_of::<bool>() == 1,
        vstd::layout::align_of::<()>() == 1,
{
    broadcast use vstd::layout::group_layout_axioms;

    lemma_divisor_of_one(vstd::layout::align_of::<u8>());
    lemma_divisor_of_one(vstd::layout::align_of::<i8>());
    lemma_divisor_of_one(vstd::layout::align_of::<bool>());
}

/// An alignment that divides 1 is 1.
proof fn lemma_divisor_of_one(align: nat)
    requires
        is_pow2(align as int),
        1nat % align == 0,
    ensures
        align == 1,
{
    reveal(is_pow2);
    if align > 1 {
        vstd::arithmetic::div_mod::lemma_small_mod(1, align);
    }
}

/// Returns the alignment requirement for type T.
pub fn alignment_of<T>() -> (r: usize)
    ensures
        r == vstd::layout::align_of::<T>(),
        r > 0,
{
    vstd::layout::layout_for_type_is_valid::<T>();
    core::mem::align_of::<T>()
}

} // verus!
