//! The mathematical model of a leading-zero count.
use vstd::prelude::*;
use vstd::arithmetic::power2::{pow2, lemma_pow2_unfold, lemma2_to64};
use vstd::arithmetic::div_mod::{lemma_basic_div, lemma_div_by_self, lemma_div_is_ordered};

verus! {

/// The number of binary digits of `v`: the position of its highest set bit,
/// plus one; zero for zero.
pub open spec fn bit_length(v: nat) -> nat
    decreases v,
{
    if v == 0 {
        0
    } else {
        1 + bit_length(v / 2)
    }
}

/// The number of `0` bits above the highest set bit of `v`, in a pattern of
/// `width` bits.
pub open spec fn bit_leading_zeros(v: nat, width: nat) -> nat {
    (width - bit_length(v)) as nat
}

/// The length of the run of `zero` elements at the start of `s`.
pub open spec fn zero_run<T>(s: Seq<T>, zero: T) -> nat
    decreases s.len(),
{
    if s.len() > 0 && s[0] == zero {
        1 + zero_run(s.drop_first(), zero)
    } else {
        0
    }
}

/// The run of leading `zero` elements: its length is at most that of `s`,
/// every element before it is `zero`, and the element that ends it is not.
pub proof fn lemma_zero_run_shape<T>(s: Seq<T>, zero: T)
    ensures
        zero_run(s, zero) <= s.len(),
        forall|j: int| 0 <= j < zero_run(s, zero) ==> s[j] == zero,
        zero_run(s, zero) < s.len() ==> s[zero_run(s, zero) as int] != zero,
    decreases s.len(),
{
    if s.len() > 0 && s[0] == zero {
        let rest = s.drop_first();
        lemma_zero_run_shape(rest, zero);
        assert forall|j: int| 0 <= j < zero_run(s, zero) implies s[j] == zero by {
            if j > 0 {
                assert(s[j] == rest[j - 1]);
            }
        }
    }
}

/// A prefix of `zero` elements of length `i` that ends the sequence or is
/// followed by another element is the run of leading `zero` elements.
pub proof fn lemma_zero_run_ends_at<T>(s: Seq<T>, zero: T, i: int)
    requires
        0 <= i <= s.len(),
        forall|j: int| 0 <= j < i ==> s[j] == zero,
        i == s.len() || s[i] != zero,
    ensures
        zero_run(s, zero) == i,
    decreases i,
{
    if i > 0 {
        lemma_zero_run_ends_at(s.drop_first(), zero, i - 1);
    }
}

/// A value that lies in `[2^(k-1), 2^k)` has exactly `k` binary digits.
pub proof fn lemma_bit_length_between(v: nat, k: nat)
    requires
        k >= 1,
        pow2((k - 1) as nat) <= v < pow2(k),
    ensures
        bit_length(v) == k,
    decreases k,
{
    lemma_pow2_unfold(k);
    if k == 1 {
        assert(pow2(0) == 1) by {
            lemma2_to64();
        }
        assert(v == 1);
        assert(bit_length(0) == 0);
    } else {
        lemma_pow2_unfold((k - 1) as nat);
        lemma_bit_length_between(v / 2, (k - 1) as nat);
    }
}

/// A quotient by a positive divisor is zero exactly when the dividend is
/// below the divisor.
pub proof fn lemma_quotient_bounds(v: nat, d: nat)
    requires
        d > 0,
    ensures
        v / d == 0 <==> v < d,
{
    if v >= d {
        lemma_div_is_ordered(d as int, v as int, d as int);
        lemma_div_by_self(d as int);
    } else {
        lemma_basic_div(v as int, d as int);
    }
}

/// Every value below `2^width` has at most `width` binary digits.
pub proof fn lemma_bit_length_bound(v: nat, width: nat)
    requires
        v < pow2(width),
    ensures
        bit_length(v) <= width,
    decreases width,
{
    if width == 0 {
        lemma2_to64();
        assert(v == 0);
    } else {
        lemma_pow2_unfold(width);
        if v > 0 {
            lemma_bit_length_bound(v / 2, (width - 1) as nat);
        }
    }
}

} // verus!
