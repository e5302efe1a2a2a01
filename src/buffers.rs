//! Byte and character buffers: the run of leading `'0'` elements.
//!
//! A byte buffer counts the byte `0x30` (the digit `'0'` in ASCII), as text
//! does; the byte `0x00` is not a leading zero here.
use vstd::prelude::*;
use crate::LeadingZeroCount;
use crate::model::{zero_run, lemma_zero_run_ends_at};

verus! {

/// The byte that a buffer counts: the ASCII digit `'0'`.
pub const ZERO_DIGIT: u8 = 0x30;

impl LeadingZeroCount for [u8] {
    open spec fn leading_zero_count(&self) -> nat {
        zero_run(self@, ZERO_DIGIT)
    }

    fn count_leading_zeros(&self) -> (r: usize)
        ensures
            r <= self@.len(),
            forall|j: int| 0 <= j < r ==> self@[j] == ZERO_DIGIT,
            r < self@.len() ==> self@[r as int] != ZERO_DIGIT,
    {
        let mut i: usize = 0;
        while i < self.len() && self[i] == ZERO_DIGIT
            invariant
                0 <= i <= self@.len(),
                forall|j: int| 0 <= j < i ==> self@[j] == ZERO_DIGIT,
            decreases self@.len() - i,
        {
            i += 1;
        }
        proof {
            lemma_zero_run_ends_at(self@, ZERO_DIGIT, i as int);
        }
        i
    }
}

impl<const N: usize> LeadingZeroCount for [u8; N] {
    open spec fn leading_zero_count(&self) -> nat {
        zero_run(self@, ZERO_DIGIT)
    }

    fn count_leading_zeros(&self) -> (r: usize) {
        self.as_slice().count_leading_zeros()
    }
}

impl LeadingZeroCount for Vec<u8> {
    open spec fn leading_zero_count(&self) -> nat {
        zero_run(self@, ZERO_DIGIT)
    }

    fn count_leading_zeros(&self) -> (r: usize) {
        self.as_slice().count_leading_zeros()
    }
}

impl LeadingZeroCount for [char] {
    open spec fn leading_zero_count(&self) -> nat {
        zero_run(self@, '0')
    }

    fn count_leading_zeros(&self) -> (r: usize)
        ensures
            r <= self@.len(),
            forall|j: int| 0 <= j < r ==> self@[j] == '0',
            r < self@.len() ==> self@[r as int] != '0',
    {
        let mut i: usize = 0;
        while i < self.len() && self[i] == '0'
            invariant
                0 <= i <= self@.len(),
                forall|j: int| 0 <= j < i ==> self@[j] == '0',
            decreases self@.len() - i,
        {
            i += 1;
        }
        proof {
            lemma_zero_run_ends_at(self@, '0', i as int);
        }
        i
    }
}

impl<const N: usize> LeadingZeroCount for [char; N] {
    open spec fn leading_zero_count(&self) -> nat {
        zero_run(self@, '0')
    }

    fn count_leading_zeros(&self) -> (r: usize) {
        self.as_slice().count_leading_zeros()
    }
}

impl LeadingZeroCount for Vec<char> {
    open spec fn leading_zero_count(&self) -> nat {
        zero_run(self@, '0')
    }

    fn count_leading_zeros(&self) -> (r: usize) {
        self.as_slice().count_leading_zeros()
    }
}

} // verus!
