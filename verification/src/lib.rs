//! Two-dimensional vectors of IEEE-754 single-precision coordinates.
//!
//! A coordinate is held as its 32-bit pattern. Everything that can be decided
//! from the patterns alone is decided here and proved: which numbers are equal,
//! which is smaller, how an interpolation weight is clamped, when a bounded
//! move reaches its target, when a vector is long enough to be normalised, and
//! which coordinate an index names. Rounding arithmetic is left to the caller,
//! who hands its results in as bit patterns.

pub mod binary32;
pub mod vector;

pub use crate::vector::Vector2;
