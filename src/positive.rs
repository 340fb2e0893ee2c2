//! A wrapper whose value is never negative.
use vstd::math::abs;
use vstd::prelude::*;

use crate::scalar::{Signed, Zero};

verus! {

/// A value that is never negative.
#[derive(Debug, Copy, PartialEq, Eq, PartialOrd, Ord)]
pub struct Positive<T: Signed>(T);

impl<T: Signed> View for Positive<T> {
    type V = nat;

    closed spec fn view(&self) -> nat {
        self.0.spec_int() as nat
    }
}

impl<T: Signed> Clone for Positive<T> {
    fn clone(&self) -> (r: Self)
        ensures
            r@ == self@,
    {
        *self
    }
}

impl<T: Signed> Positive<T> {
    #[verifier::type_invariant]
    spec fn inv(self) -> bool {
        self.0.spec_int() >= 0
    }

    /// Returns the magnitude of `value`.
    pub fn from(value: T) -> (r: Self)
        requires
            value.spec_int() > T::spec_min(),
        ensures
            r@ == abs(value.spec_int()),
    {
        Positive(value.abs())
    }

    /// Returns the sum of both values, which is never negative either.
    pub fn add(self, rhs: Self) -> (r: Self)
        requires
            self@ + rhs@ <= T::spec_max(),
        ensures
            r@ == self@ + rhs@,
    {
        let a = self.into_inner();
        let b = rhs.into_inner();
        proof {
            T::lemma_model(a);
        }
        Self::from(a.add(&b))
    }

    /// Returns the wrapped value.
    pub fn into_inner(self) -> (r: T)
        ensures
            r.spec_int() == self@,
    {
        proof {
            use_type_invariant(&self);
        }
        self.0
    }
}

impl<T: Signed> Zero for Positive<T> {
    open spec fn spec_is_zero(&self) -> bool {
        self@ == 0
    }

    fn zero() -> (r: Self)
        ensures
            r@ == 0,
    {
        let z = T::zero();
        proof {
            T::lemma_model(z);
        }
        Positive(z)
    }

    fn is_zero(&self) -> (r: bool) {
        proof {
            use_type_invariant(self);
            T::lemma_model(self.0);
        }
        self.0.is_zero()
    }
}

} // verus!
