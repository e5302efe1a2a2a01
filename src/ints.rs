//! Fixed-width integers: leading `0` bits of the bit pattern, most
//! significant bit first. Signed integers are read as their two's-complement
//! pattern.
use vstd::prelude::*;
use vstd::arithmetic::power2::{pow2, lemma_pow2_pos, lemma2_to64};
use vstd::bits::{lemma_u8_shr_is_div, lemma_u16_shr_is_div, lemma_u32_shr_is_div};
use vstd::std_specs::bits::{
    axiom_u8_leading_zeros,
    axiom_u16_leading_zeros,
    axiom_u32_leading_zeros,
    u64_leading_zeros,
};
use crate::LeadingZeroCount;
use crate::model::{
    bit_leading_zeros,
    bit_length,
    lemma_bit_length_between,
    lemma_bit_length_bound,
    lemma_quotient_bounds,
};

verus! {

/// Relies on `u128::leading_zeros`: the number of leading zeros in the
/// binary representation of the value.
pub assume_specification[ u128::leading_zeros ](i: u128) -> (r: u32)
    ensures
        r as nat == bit_leading_zeros(i as nat, 128),
;

/// Relies on `usize::leading_zeros`: the number of leading zeros in the
/// binary representation of the value, `usize::BITS` bits wide.
pub assume_specification[ usize::leading_zeros ](i: usize) -> (r: u32)
    ensures
        r as nat == bit_leading_zeros(i as nat, usize::BITS as nat),
;

proof fn lemma_u8_leading_zeros(i: u8)
    ensures
        i.leading_zeros() as nat == bit_leading_zeros(i as nat, 8),
{
    axiom_u8_leading_zeros(i);
    let z = i.leading_zeros();
    if i != 0 {
        let k: u8 = (8 - z) as u8;
        assert(i >> (k - 1) as u8 != 0) by (bit_vector)
            requires
                ((i >> (k - 1) as u8) & 1u8) != 0u8,
        ;
        lemma_u8_shr_is_div(i, (k - 1) as u8);
        lemma_pow2_pos((k - 1) as nat);
        lemma_quotient_bounds(i as nat, pow2((k - 1) as nat));
        if k < 8 {
            lemma_u8_shr_is_div(i, k);
            lemma_pow2_pos(k as nat);
            lemma_quotient_bounds(i as nat, pow2(k as nat));
        } else {
            lemma2_to64();
        }
        lemma_bit_length_between(i as nat, k as nat);
    }
}

proof fn lemma_u16_leading_zeros(i: u16)
    ensures
        i.leading_zeros() as nat == bit_leading_zeros(i as nat, 16),
{
    axiom_u16_leading_zeros(i);
    let z = i.leading_zeros();
    if i != 0 {
        let k: u16 = (16 - z) as u16;
        assert(i >> (k - 1) as u16 != 0) by (bit_vector)
            requires
                ((i >> (k - 1) as u16) & 1u16) != 0u16,
        ;
        lemma_u16_shr_is_div(i, (k - 1) as u16);
        lemma_pow2_pos((k - 1) as nat);
        lemma_quotient_bounds(i as nat, pow2((k - 1) as nat));
        if k < 16 {
            lemma_u16_shr_is_div(i, k);
            lemma_pow2_pos(k as nat);
            lemma_quotient_bounds(i as nat, pow2(k as nat));
        } else {
            lemma2_to64();
        }
        lemma_bit_length_between(i as nat, k as nat);
    }
}

proof fn lemma_u32_leading_zeros(i: u32)
    ensures
        i.leading_zeros() as nat == bit_leading_zeros(i as nat, 32),
{
    axiom_u32_leading_zeros(i);
    let z = i.leading_zeros();
    if i != 0 {
        let k: u32 = (32 - z) as u32;
        assert(i >> (k - 1) as u32 != 0) by (bit_vector)
            requires
                ((i >> (k - 1) as u32) & 1u32) != 0u32,
        ;
        lemma_u32_shr_is_div(i, (k - 1) as u32);
        lemma_pow2_pos((k - 1) as nat);
        lemma_quotient_bounds(i as nat, pow2((k - 1) as nat));
        if k < 32 {
            lemma_u32_shr_is_div(i, k);
            lemma_pow2_pos(k as nat);
            lemma_quotient_bounds(i as nat, pow2(k as nat));
        } else {
            lemma2_to64();
        }
        lemma_bit_length_between(i as nat, k as nat);
    }
}

proof fn lemma_u64_leading_zeros(i: u64)
    ensures
        u64_leading_zeros(i) == bit_leading_zeros(i as nat, 64),
    decreases i,
{
    reveal(u64_leading_zeros);
    lemma2_to64();
    lemma_bit_length_bound(i as nat, 64);
    if i != 0 {
        lemma_u64_leading_zeros(i / 2);
    }
}

impl LeadingZeroCount for u8 {
    open spec fn leading_zero_count(&self) -> nat {
        bit_leading_zeros(*self as nat, 8)
    }

    fn count_leading_zeros(&self) -> (r: usize) {
        proof {
            lemma_u8_leading_zeros(*self);
        }
        (*self).leading_zeros() as usize
    }
}

impl LeadingZeroCount for u16 {
    open spec fn leading_zero_count(&self) -> nat {
        bit_leading_zeros(*self as nat, 16)
    }

    fn count_leading_zeros(&self) -> (r: usize) {
        proof {
            lemma_u16_leading_zeros(*self);
        }
        (*self).leading_zeros() as usize
    }
}

impl LeadingZeroCount for u32 {
    open spec fn leading_zero_count(&self) -> nat {
        bit_leading_zeros(*self as nat, 32)
    }

    fn count_leading_zeros(&self) -> (r: usize) {
        proof {
            lemma_u32_leading_zeros(*self);
        }
        (*self).leading_zeros() as usize
    }
}

impl LeadingZeroCount for u64 {
    open spec fn leading_zero_count(&self) -> nat {
        bit_leading_zeros(*self as nat, 64)
    }

    fn count_leading_zeros(&self) -> (r: usize) {
        proof {
            lemma_u64_leading_zeros(*self);
        }
        (*self).leading_zeros() as usize
    }
}

impl LeadingZeroCount for u128 {
    open spec fn leading_zero_count(&self) -> nat {
        bit_leading_zeros(*self as nat, 128)
    }

    fn count_leading_zeros(&self) -> (r: usize) {
        (*self).leading_zeros() as usize
    }
}

impl LeadingZeroCount for usize {
    open spec fn leading_zero_count(&self) -> nat {
        bit_leading_zeros(*self as nat, usize::BITS as nat)
    }

    fn count_leading_zeros(&self) -> (r: usize) {
        (*self).leading_zeros() as usize
    }
}

impl LeadingZeroCount for i8 {
    open spec fn leading_zero_count(&self) -> nat {
        bit_leading_zeros(*self as u8 as nat, 8)
    }

    fn count_leading_zeros(&self) -> (r: usize) {
        (*self as u8).count_leading_zeros()
    }
}

impl LeadingZeroCount for i16 {
    open spec fn leading_zero_count(&self) -> nat {
        bit_leading_zeros(*self as u16 as nat, 16)
    }

    fn count_leading_zeros(&self) -> (r: usize) {
        (*self as u16).count_leading_zeros()
    }
}

impl LeadingZeroCount for i32 {
    open spec fn leading_zero_count(&self) -> nat {
        bit_leading_zeros(*self as u32 as nat, 32)
    }

    fn count_leading_zeros(&self) -> (r: usize) {
        (*self as u32).count_leading_zeros()
    }
}

impl LeadingZeroCount for i64 {
    open spec fn leading_zero_count(&self) -> nat {
        bit_leading_zeros(*self as u64 as nat, 64)
    }

    fn count_leading_zeros(&self) -> (r: usize) {
        (*self as u64).count_leading_zeros()
    }
}

impl LeadingZeroCount for i128 {
    open spec fn leading_zero_count(&self) -> nat {
        bit_leading_zeros(*self as u128 as nat, 128)
    }

    fn count_leading_zeros(&self) -> (r: usize) {
        (*self as u128).count_leading_zeros()
    }
}

impl LeadingZeroCount for isize {
    open spec fn leading_zero_count(&self) -> nat {
        bit_leading_zeros(*self as usize as nat, usize::BITS as nat)
    }

    fn count_leading_zeros(&self) -> (r: usize) {
        (*self as usize).count_leading_zeros()
    }
}

/// For every unsigned width `N`, zero has `N` leading zeros and one has
/// `N - 1`.
pub proof fn lemma_unsigned_zero_and_one()
    ensures
        0u8.leading_zero_count() == 8,
        1u8.leading_zero_count() == 7,
        0u16.leading_zero_count() == 16,
        1u16.leading_zero_count() == 15,
        0u32.leading_zero_count() == 32,
        1u32.leading_zero_count() == 31,
        0u64.leading_zero_count() == 64,
        1u64.leading_zero_count() == 63,
        0u128.leading_zero_count() == 128,
        1u128.leading_zero_count() == 127,
        0usize.leading_zero_count() == usize::BITS,
        1usize.leading_zero_count() == usize::BITS - 1,
{
    assert(bit_length(0) == 0);
    assert(bit_length(1) == 1 + bit_length(0));
}

} // verus!
