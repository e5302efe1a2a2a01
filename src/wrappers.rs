//! Ownership wrappers: each counts what the value it holds counts.
use vstd::prelude::*;
use std::borrow::Cow;
use std::rc::Rc;
use std::sync::Arc;
use crate::LeadingZeroCount;
use crate::buffers::ZERO_DIGIT;
use crate::model::zero_run;

verus! {

impl<T: LeadingZeroCount + ?Sized> LeadingZeroCount for &T {
    open spec fn leading_zero_count(&self) -> nat {
        (**self).leading_zero_count()
    }

    fn count_leading_zeros(&self) -> (r: usize) {
        (**self).count_leading_zeros()
    }
}

impl<T: LeadingZeroCount + ?Sized> LeadingZeroCount for &mut T {
    open spec fn leading_zero_count(&self) -> nat {
        (**self).leading_zero_count()
    }

    fn count_leading_zeros(&self) -> (r: usize) {
        (**self).count_leading_zeros()
    }
}

impl<T: LeadingZeroCount + ?Sized> LeadingZeroCount for Box<T> {
    open spec fn leading_zero_count(&self) -> nat {
        (**self).leading_zero_count()
    }

    fn count_leading_zeros(&self) -> (r: usize) {
        (**self).count_leading_zeros()
    }
}

impl<T: LeadingZeroCount + ?Sized> LeadingZeroCount for Rc<T> {
    open spec fn leading_zero_count(&self) -> nat {
        (**self).leading_zero_count()
    }

    fn count_leading_zeros(&self) -> (r: usize) {
        (**self).count_leading_zeros()
    }
}

impl<T: LeadingZeroCount + ?Sized> LeadingZeroCount for Arc<T> {
    open spec fn leading_zero_count(&self) -> nat {
        (**self).leading_zero_count()
    }

    fn count_leading_zeros(&self) -> (r: usize) {
        (**self).count_leading_zeros()
    }
}

impl<'a> LeadingZeroCount for Cow<'a, str> {
    open spec fn leading_zero_count(&self) -> nat {
        zero_run(self@, '0')
    }

    fn count_leading_zeros(&self) -> (r: usize) {
        match self {
            Cow::Borrowed(s) => s.count_leading_zeros(),
            Cow::Owned(s) => s.count_leading_zeros(),
        }
    }
}

impl<'a> LeadingZeroCount for Cow<'a, [u8]> {
    open spec fn leading_zero_count(&self) -> nat {
        zero_run(self@, ZERO_DIGIT)
    }

    fn count_leading_zeros(&self) -> (r: usize) {
        match self {
            Cow::Borrowed(b) => b.count_leading_zeros(),
            Cow::Owned(b) => b.count_leading_zeros(),
        }
    }
}

/// A borrow, a box, a shared pointer and an atomically shared pointer that
/// hold a value count what the value counts.
pub proof fn lemma_pointers_delegate<T: LeadingZeroCount + ?Sized>(
    v: &T,
    m: &&mut T,
    b: &Box<T>,
    r: &Rc<T>,
    a: &Arc<T>,
)
    requires
        &**m == v,
        &**b == v,
        &**r == v,
        &**a == v,
    ensures
        <&T as LeadingZeroCount>::leading_zero_count(&v) == (*v).leading_zero_count(),
        m.leading_zero_count() == (*v).leading_zero_count(),
        b.leading_zero_count() == (*v).leading_zero_count(),
        r.leading_zero_count() == (*v).leading_zero_count(),
        a.leading_zero_count() == (*v).leading_zero_count(),
{
}

/// A copy-on-write text counts what the text it borrows or owns counts.
pub proof fn lemma_cow_text_delegates<'a>(c: &Cow<'a, str>)
    ensures
        match c {
            Cow::Borrowed(s) => c.leading_zero_count() == (**s).leading_zero_count(),
            Cow::Owned(s) => c.leading_zero_count() == s.leading_zero_count(),
        },
{
}

/// A copy-on-write byte buffer counts what the buffer it borrows or owns
/// counts.
pub proof fn lemma_cow_bytes_delegates<'a>(c: &Cow<'a, [u8]>)
    ensures
        match c {
            Cow::Borrowed(b) => c.leading_zero_count() == (**b).leading_zero_count(),
            Cow::Owned(b) => c.leading_zero_count() == b.leading_zero_count(),
        },
{
}

} // verus!
