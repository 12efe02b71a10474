//! Binary32 numbers as bit patterns.
//!
//! A finite binary32 number is a signed integer significand times a power of
//! two. This module reads both off the bit pattern and decides, on the bits
//! alone, whether the number is zero or one.

use vstd::arithmetic::power2::{lemma2_to64, lemma_pow2_pos, lemma_pow2_strictly_increases, pow2};
use vstd::prelude::*;

verus! {

/// Bit pattern of positive zero.
pub const POSITIVE_ZERO: u32 = 0;

/// Bit pattern of negative zero.
pub const NEGATIVE_ZERO: u32 = 0x8000_0000;

/// Bit pattern of the number one.
pub const ONE: u32 = 0x3f80_0000;

/// Mask of every bit but the sign.
pub const MAGNITUDE_MASK: u32 = 0x7fff_ffff;

/// A binary32 number, held as its bit pattern: one sign bit, eight bits of
/// biased exponent, twenty-three bits of fraction.
#[derive(Clone, Copy, Debug, PartialEq, Eq, Structural)]
pub struct Scalar {
    pub bits: u32,
}

impl Scalar {
    /// Whether the sign bit is set.
    pub open spec fn negative(self) -> bool {
        self.bits >= 0x8000_0000
    }

    /// The biased exponent field.
    pub open spec fn exponent_field(self) -> nat {
        ((self.bits as nat) / 0x80_0000) % 0x100
    }

    /// The fraction field.
    pub open spec fn fraction_field(self) -> nat {
        (self.bits as nat) % 0x80_0000
    }

    /// Whether the pattern stands for a number, rather than an infinity or a
    /// NaN.
    pub open spec fn is_finite(self) -> bool {
        self.exponent_field() < 0xff
    }

    /// The magnitude of a finite number, counted in units of two to the
    /// power `scale()`. Subnormal numbers lack the implicit leading bit.
    pub open spec fn significand(self) -> nat {
        if self.exponent_field() == 0 {
            self.fraction_field()
        } else {
            self.fraction_field() + 0x80_0000
        }
    }

    /// The significand with the sign of the number.
    pub open spec fn signed_significand(self) -> int {
        if self.negative() {
            -(self.significand() as int)
        } else {
            self.significand() as int
        }
    }

    /// The power of two that a finite number's significand is counted in.
    pub open spec fn scale(self) -> int {
        if self.exponent_field() == 0 {
            -149
        } else {
            self.exponent_field() - 150
        }
    }

    /// Whether the pattern stands for a finite number whose value is the
    /// integer `n`, that is, whether `signed_significand() * 2^scale() == n`.
    pub open spec fn equals_integer(self, n: int) -> bool {
        &&& self.is_finite()
        &&& if self.scale() >= 0 {
            self.signed_significand() * pow2(self.scale() as nat) == n
        } else {
            self.signed_significand() == n * pow2((-self.scale()) as nat)
        }
    }

    /// Whether the number is zero, of either sign.
    pub open spec fn is_zero_spec(self) -> bool {
        self.equals_integer(0)
    }

    /// Whether the number is one.
    pub open spec fn is_one_spec(self) -> bool {
        self.equals_integer(1)
    }

    /// The number with the given bit pattern.
    pub fn from_bits(bits: u32) -> (s: Scalar)
        ensures
            s.bits == bits,
    {
        Scalar { bits }
    }

    /// The bit pattern of the number.
    pub fn to_bits(self) -> (bits: u32)
        ensures
            bits == self.bits,
    {
        self.bits
    }

    /// Decides whether the number is zero. Both zeros count: the sign bit is
    /// left out of the test.
    #[verifier::when_used_as_spec(is_zero_spec)]
    pub fn is_zero(self) -> (r: bool)
        ensures
            r == self.is_zero_spec(),
            r == (self.bits == POSITIVE_ZERO || self.bits == NEGATIVE_ZERO),
    {
        proof {
            lemma_zero_patterns(self);
            let b = self.bits;
            assert((b & 0x7fff_ffff == 0) == (b == 0 || b == 0x8000_0000)) by (bit_vector);
        }
        self.bits & MAGNITUDE_MASK == 0
    }

    /// Decides whether the number is one.
    #[verifier::when_used_as_spec(is_one_spec)]
    pub fn is_one(self) -> (r: bool)
        ensures
            r == self.is_one_spec(),
            r == (self.bits == ONE),
    {
        proof {
            lemma_one_pattern(self);
        }
        self.bits == ONE
    }
}

/// Exactly two bit patterns stand for zero: all bits clear, and the sign bit
/// alone.
pub proof fn lemma_zero_patterns(s: Scalar)
    ensures
        s.is_zero_spec() <==> (s.bits == POSITIVE_ZERO || s.bits == NEGATIVE_ZERO),
{
    if s.is_zero_spec() {
        if s.scale() >= 0 {
            lemma_pow2_pos(s.scale() as nat);
            assert(false) by (nonlinear_arith)
                requires
                    s.signed_significand() * pow2(s.scale() as nat) == 0,
                    pow2(s.scale() as nat) > 0,
                    s.signed_significand() != 0,
            ;
        }
    }
}

/// Exactly one bit pattern stands for one.
pub proof fn lemma_one_pattern(s: Scalar)
    ensures
        s.is_one_spec() <==> s.bits == ONE,
{
    lemma2_to64();
    if s.is_one_spec() {
        let m = s.significand();
        if s.scale() >= 0 {
            let p = pow2(s.scale() as nat);
            lemma_pow2_pos(s.scale() as nat);
            assert(m >= 0x80_0000);
            assert(false) by (nonlinear_arith)
                requires
                    s.signed_significand() * p == 1,
                    p > 0,
                    s.signed_significand() >= 0x80_0000 || s.signed_significand() <= -0x80_0000,
            ;
        } else {
            let k = (-s.scale()) as nat;
            assert(m == pow2(k));
            if k < 23 {
                lemma_pow2_strictly_increases(k, 23);
            }
            if k > 23 {
                lemma_pow2_strictly_increases(23, k);
                if k > 24 {
                    lemma_pow2_strictly_increases(24, k);
                }
            }
            assert(k == 23);
        }
    }
}

} // verus!
