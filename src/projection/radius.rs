//! The radius of the globe being projected.
use vstd::prelude::*;

use crate::nonzero::NonZero;
use crate::positive::Positive;
use crate::scalar::Signed;

verus! {

/// Returns the length held by a globe radius, which is always strictly positive.
pub fn radius_value<T: Signed>(radius: NonZero<Positive<T>>) -> (r: T)
    ensures
        r.spec_int() == radius@@,
        r.spec_int() > 0,
{
    let positive = radius.into_inner();
    positive.into_inner()
}

} // verus!
