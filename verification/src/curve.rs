//! The endpoint rule of Bezier segments.
//!
//! A segment meets its neighbours at its first and last control points. So
//! that chained segments join without a gap, the point at parameter zero is
//! the first control point itself and the point at parameter one is the last,
//! whatever rounding the polynomial would suffer there. The rule is the same
//! for quadratic and cubic segments and does not look at the inner control
//! points.

use crate::scalar::{lemma_one_pattern, lemma_zero_patterns, Scalar, NEGATIVE_ZERO, ONE, POSITIVE_ZERO};
use vstd::prelude::*;

verus! {

/// The control point that a segment from `first` to `last` passes through at
/// parameter `t` without any arithmetic, if there is one.
pub open spec fn endpoint_spec<P>(t: Scalar, first: P, last: P) -> Option<P> {
    if t.is_zero_spec() {
        Some(first)
    } else if t.is_one_spec() {
        Some(last)
    } else {
        None
    }
}

/// Picks the point of a segment at parameter `t` where it is owed exactly:
/// `first` at zero, `last` at one, each handed back as it came in. For every
/// other `t`, within the unit interval or beyond it, the answer is `None` and
/// the caller evaluates the polynomial.
pub fn endpoint<P>(t: Scalar, first: P, last: P) -> (r: Option<P>)
    ensures
        r == endpoint_spec(t, first, last),
        t.bits == POSITIVE_ZERO || t.bits == NEGATIVE_ZERO ==> r == Some(first),
        t.bits == ONE ==> r == Some(last),
        t.bits != POSITIVE_ZERO && t.bits != NEGATIVE_ZERO && t.bits != ONE ==> r is None,
{
    if t.is_zero() {
        Some(first)
    } else if t.is_one() {
        Some(last)
    } else {
        None
    }
}

/// At parameter zero, of either sign, a segment is at its first control
/// point, bit for bit.
pub proof fn lemma_start_is_exact<P>(first: P, last: P)
    ensures
        endpoint_spec(Scalar { bits: POSITIVE_ZERO }, first, last) == Some(first),
        endpoint_spec(Scalar { bits: NEGATIVE_ZERO }, first, last) == Some(first),
{
    lemma_zero_patterns(Scalar { bits: POSITIVE_ZERO });
    lemma_zero_patterns(Scalar { bits: NEGATIVE_ZERO });
}

/// At parameter one a segment is at its last control point, bit for bit.
pub proof fn lemma_end_is_exact<P>(first: P, last: P)
    ensures
        endpoint_spec(Scalar { bits: ONE }, first, last) == Some(last),
{
    lemma_zero_patterns(Scalar { bits: ONE });
    lemma_one_pattern(Scalar { bits: ONE });
}

} // verus!
