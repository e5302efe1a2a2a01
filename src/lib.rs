//! Counting leading zero symbols.
//!
//! Fixed-width integers count the `0` bits at the most-significant end of
//! their bit pattern. Text, byte buffers and character buffers count the run
//! of leading `'0'` symbols (the byte `0x30`, not the byte `0x00`). Ownership
//! wrappers delegate to the value they hold.
use vstd::prelude::*;

pub mod model;
pub mod ints;
pub mod buffers;
pub mod text;
pub mod wrappers;

verus! {

/// A value whose leading zero symbols can be counted.
pub trait LeadingZeroCount {
    /// The number of leading zero symbols of this value.
    spec fn leading_zero_count(&self) -> nat;

    /// Counts the leading zero symbols of this value.
    fn count_leading_zeros(&self) -> (r: usize)
        ensures
            r as nat == self.leading_zero_count(),
    ;
}

} // verus!
