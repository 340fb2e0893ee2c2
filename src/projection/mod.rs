//! What the projections share: the radius of the globe and their errors.
pub mod orthographic;
pub mod radius;
