//! The parallel test of line intersection.
//!
//! Two lines given by coefficients `(a1, b1, c1)` and `(a2, b2, c2)` are
//! solved by Cramer's rule, which divides by the determinant
//! `a1 * b2 - b1 * a2`. The lines have one common point unless that
//! determinant is zero. The test is exact: no tolerance is applied, so a
//! determinant that is merely small still counts as an intersection.

use crate::scalar::{Scalar, NEGATIVE_ZERO, POSITIVE_ZERO};
use vstd::prelude::*;

verus! {

/// Whether lines with determinant `d` have exactly one common point.
pub open spec fn has_intersection_spec(d: Scalar) -> bool {
    !d.is_zero_spec()
}

/// Decides from the determinant `d` of two lines whether they have exactly
/// one common point. They have none to report when `d` is zero, of either
/// sign: the lines are then parallel, coincident, or one of them has shrunk to
/// a point.
#[verifier::when_used_as_spec(has_intersection_spec)]
pub fn has_intersection(d: Scalar) -> (r: bool)
    ensures
        r == has_intersection_spec(d),
        r == (d.bits != POSITIVE_ZERO && d.bits != NEGATIVE_ZERO),
{
    !d.is_zero()
}

} // verus!
