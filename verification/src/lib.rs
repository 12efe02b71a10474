//! Exactness rules of a small curve and line geometry kernel.
//!
//! Coordinates, curve parameters and determinants are IEEE 754 binary32
//! numbers. This crate handles them as bit patterns and decides, from the bits
//! alone, the cases in which a result is owed exactly rather than by
//! arithmetic: the endpoints of a Bezier segment, and the lack of an
//! intersection of two parallel lines.

pub mod curve;
pub mod line;
pub mod scalar;
