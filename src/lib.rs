//! Strictly positive globe radii and the error type of the orthographic projection.
pub mod nonzero;
pub mod positive;
pub mod projection;
pub mod scalar;
