//! A wrapper whose value is never zero.
use vstd::prelude::*;

use crate::scalar::Zero;

verus! {

/// A value that may be anything but the zero element of its type.
#[derive(Debug, Copy, PartialEq, Eq, PartialOrd, Ord)]
pub struct NonZero<T: Zero>(T);

impl<T: Zero> View for NonZero<T> {
    type V = T;

    closed spec fn view(&self) -> T {
        self.0
    }
}

impl<T: Zero + Copy> Clone for NonZero<T> {
    fn clone(&self) -> (r: Self)
        ensures
            r == *self,
    {
        *self
    }
}

impl<T: Zero> NonZero<T> {
    #[verifier::type_invariant]
    spec fn inv(self) -> bool {
        !self.0.spec_is_zero()
    }

    /// Returns a wrapper around `value` if, and only if, `value` is not zero.
    pub fn new(value: T) -> (r: Option<Self>)
        ensures
            r is None <==> value.spec_is_zero(),
            r matches Some(n) ==> n@ == value,
    {
        if value.is_zero() {
            return None;
        }
        Some(NonZero(value))
    }

    /// Returns the wrapped value.
    pub fn into_inner(self) -> (r: T)
        ensures
            r == self@,
            !r.spec_is_zero(),
    {
        proof {
            use_type_invariant(&self);
        }
        self.0
    }
}

} // verus!
