//! Single-precision real numbers held by their bit patterns.
//!
//! The viewer never computes with reals itself. It stores them, hands them on
//! and decides whether a value is acceptable. All of that is exact on the
//! IEEE 754 binary32 encoding: one sign bit, eight exponent bits and
//! twenty-three fraction bits.

use vstd::prelude::*;
use vstd::arithmetic::power2::pow2;
use vstd::arithmetic::power2::lemma_pow2_pos;

verus! {

/// Number of fraction patterns, `2^23`.
pub const FRACTION_SPAN: u32 = 0x0080_0000;

/// Number of exponent patterns, `2^8`.
pub const EXPONENT_SPAN: u32 = 0x100;

/// The exponent pattern reserved for infinities and NaNs.
pub const EXPONENT_SPECIAL: u32 = 0xFF;

/// The smallest pattern whose sign bit is set.
pub const SIGN_BIT: u32 = 0x8000_0000;

/// A binary32 value, identified by its bit pattern.
#[derive(Clone, Copy, Debug, PartialEq, Eq, Structural)]
pub struct Scalar {
    pub bits: u32,
}

impl Scalar {
    /// The sign bit is set.
    pub open spec fn negative(self) -> bool {
        self.bits >= SIGN_BIT
    }

    /// The biased exponent field, `0..=255`.
    pub open spec fn exponent(self) -> nat {
        ((self.bits / FRACTION_SPAN) % EXPONENT_SPAN) as nat
    }

    /// The fraction field, `0..2^23`.
    pub open spec fn fraction(self) -> nat {
        (self.bits % FRACTION_SPAN) as nat
    }

    /// The pattern encodes a real number: neither an infinity nor a NaN.
    pub open spec fn finite(self) -> bool {
        self.exponent() != EXPONENT_SPECIAL
    }

    /// The absolute value of a finite scalar, counted in units of `2^-149`,
    /// the spacing of the smallest subnormals. Every finite binary32 value is a
    /// whole number of these units.
    pub open spec fn magnitude(self) -> nat {
        if self.exponent() == 0 {
            self.fraction()
        } else {
            ((FRACTION_SPAN + self.fraction()) * pow2((self.exponent() - 1) as nat)) as nat
        }
    }

    /// The value of a finite scalar in units of `2^-149`.
    pub open spec fn units(self) -> int {
        if self.negative() {
            -(self.magnitude() as int)
        } else {
            self.magnitude() as int
        }
    }

    /// The pattern encodes a real number greater than zero.
    pub open spec fn positive(self) -> bool {
        self.finite() && self.units() > 0
    }

    /// The scalar with the given bit pattern.
    pub fn from_bits(bits: u32) -> (s: Scalar)
        ensures
            s.bits == bits,
    {
        Scalar { bits }
    }

    /// The bit pattern of the scalar.
    pub fn to_bits(&self) -> (bits: u32)
        ensures
            bits == self.bits,
    {
        self.bits
    }

    /// Whether the scalar is a real number.
    pub fn is_finite(&self) -> (r: bool)
        ensures
            r == self.finite(),
    {
        (self.bits / FRACTION_SPAN) % EXPONENT_SPAN != EXPONENT_SPECIAL
    }

    /// Whether the scalar is a real number greater than zero.
    pub fn is_positive(&self) -> (r: bool)
        ensures
            r == self.positive(),
    {
        proof {
            self.lemma_positive_patterns();
        }
        0 < self.bits && self.bits < 0x7F80_0000
    }

    /// The positive reals are exactly the patterns strictly between those of
    /// zero and of positive infinity.
    pub proof fn lemma_positive_patterns(self)
        ensures
            self.positive() <==> 0 < self.bits < 0x7F80_0000,
    {
        if self.exponent() != 0 {
            lemma_pow2_pos((self.exponent() - 1) as nat);
            assert((FRACTION_SPAN + self.fraction()) * pow2((self.exponent() - 1) as nat) > 0)
                by (nonlinear_arith)
                requires
                    FRACTION_SPAN + self.fraction() > 0,
                    pow2((self.exponent() - 1) as nat) > 0,
            ;
        }
    }
}

/// A point or displacement of the plane.
#[derive(Clone, Copy, Debug, PartialEq, Eq, Structural)]
pub struct Point {
    pub x: Scalar,
    pub y: Scalar,
}

impl Point {
    /// Both coordinates are real numbers.
    pub open spec fn finite(self) -> bool {
        self.x.finite() && self.y.finite()
    }

    /// The point with the given coordinates.
    pub fn new(x: Scalar, y: Scalar) -> (p: Point)
        ensures
            p.x == x,
            p.y == y,
    {
        Point { x, y }
    }

    /// Whether both coordinates are real numbers.
    pub fn is_finite(&self) -> (r: bool)
        ensures
            r == self.finite(),
    {
        self.x.is_finite() && self.y.is_finite()
    }
}

} // verus!
