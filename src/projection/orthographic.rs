//! Errors of the orthographic projection.
use vstd::prelude::*;

verus! {

/// Why a point cannot be carried by the orthographic projection.
#[derive(Debug, Clone, Copy, PartialEq, Eq, Structural)]
pub enum OrthographicError {
    /// The point on the sphere lies on the hemisphere facing away from the origin.
    OutOfHemisphere,
    /// The point on the plane lies outside the disc the visible hemisphere projects onto.
    OutOfPlane,
}

impl OrthographicError {
    /// Returns a human-readable description of the error.
    pub fn message(&self) -> (r: &'static str)
        ensures
            r@ == (match self {
                OrthographicError::OutOfHemisphere => "the point does not belongs to the hemisphere"@,
                OrthographicError::OutOfPlane => "the point does not belongs to the plane"@,
            }),
    {
        match self {
            OrthographicError::OutOfHemisphere => "the point does not belongs to the hemisphere",
            OrthographicError::OutOfPlane => "the point does not belongs to the plane",
        }
    }
}

} // verus!
