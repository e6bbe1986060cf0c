//! Binary64 numbers carried by their bit pattern.
//!
//! Callers keep their floating-point values; the library sees the 64 bits of
//! each and orders them as IEEE 754 does, with integer arithmetic alone.

use vstd::prelude::*;

verus! {

/// The sign bit of a binary64 pattern.
pub const SIGN_BIT: u64 = 0x8000_0000_0000_0000;

/// The pattern of positive infinity; every larger magnitude is a NaN.
pub const INFINITY_BITS: u64 = 0x7ff0_0000_0000_0000;

/// The pattern of `3600`, the number of seconds in an hour.
pub const HOUR_BITS: u64 = 0x40ac_2000_0000_0000;

/// A binary64 number, held as its bit pattern.
#[derive(Clone, Copy, Debug, PartialEq, Eq, Structural)]
pub struct FloatBits {
    pub bits: u64,
}

impl FloatBits {
    /// The pattern without its sign bit.
    pub open spec fn magnitude(self) -> int {
        if self.bits >= SIGN_BIT {
            self.bits - SIGN_BIT
        } else {
            self.bits as int
        }
    }

    /// Whether the sign bit is set.
    pub open spec fn is_negative(self) -> bool {
        self.bits >= SIGN_BIT
    }

    /// Whether the pattern is that of a NaN.
    pub open spec fn is_nan(self) -> bool {
        self.magnitude() > INFINITY_BITS
    }

    /// An integer that orders the numbers that are not NaN as their values
    /// are ordered; both zeros get 0.
    pub open spec fn rank(self) -> int {
        if self.is_negative() {
            -self.magnitude()
        } else {
            self.magnitude()
        }
    }

    /// `self <= other` as IEEE 754 compares: false where either is a NaN.
    pub open spec fn le(self, other: FloatBits) -> bool {
        !self.is_nan() && !other.is_nan() && self.rank() <= other.rank()
    }

    /// `self < other` as IEEE 754 compares: false where either is a NaN.
    pub open spec fn lt(self, other: FloatBits) -> bool {
        self.le(other) && !other.le(self)
    }

    /// `self > 0`: false for both zeros, the negative numbers and every NaN.
    pub open spec fn is_positive(self) -> bool {
        !self.is_nan() && self.rank() > 0
    }

    /// The number with the given bit pattern.
    pub fn from_bits(bits: u64) -> (r: FloatBits)
        ensures
            r.bits == bits,
    {
        FloatBits { bits }
    }

    /// The bit pattern of the number.
    pub fn to_bits(&self) -> (r: u64)
        ensures
            r == self.bits,
    {
        self.bits
    }

    /// Positive infinity.
    pub fn infinity() -> (r: FloatBits)
        ensures
            r.bits == INFINITY_BITS,
            !r.is_nan(),
            forall|x: FloatBits| !x.is_nan() ==> #[trigger] x.le(r),
    {
        FloatBits { bits: INFINITY_BITS }
    }

    /// One hour, in seconds.
    pub fn hour() -> (r: FloatBits)
        ensures
            r.bits == HOUR_BITS,
    {
        FloatBits { bits: HOUR_BITS }
    }

    /// Whether the pattern is that of a NaN.
    pub fn nan(&self) -> (r: bool)
        ensures
            r == self.is_nan(),
    {
        if self.bits >= SIGN_BIT {
            self.bits - SIGN_BIT > INFINITY_BITS
        } else {
            self.bits > INFINITY_BITS
        }
    }

    /// Whether `self <= other`.
    pub fn at_most(&self, other: &FloatBits) -> (r: bool)
        ensures
            r == self.le(*other),
    {
        if self.nan() || other.nan() {
            return false;
        }
        let a_neg = self.bits >= SIGN_BIT;
        let b_neg = other.bits >= SIGN_BIT;
        let a_mag: u64 = if a_neg {
            self.bits - SIGN_BIT
        } else {
            self.bits
        };
        let b_mag: u64 = if b_neg {
            other.bits - SIGN_BIT
        } else {
            other.bits
        };
        if a_neg && b_neg {
            b_mag <= a_mag
        } else if a_neg {
            true
        } else if b_neg {
            a_mag == 0 && b_mag == 0
        } else {
            a_mag <= b_mag
        }
    }

    /// Whether `self < other`.
    pub fn less_than(&self, other: &FloatBits) -> (r: bool)
        ensures
            r == self.lt(*other),
    {
        self.at_most(other) && !other.at_most(self)
    }

    /// Whether `self > 0`.
    pub fn positive(&self) -> (r: bool)
        ensures
            r == self.is_positive(),
    {
        0 < self.bits && self.bits <= INFINITY_BITS
    }
}

/// `<` is `<=` without equality of rank; it never holds of a NaN.
pub proof fn lemma_lt_is_strict(a: FloatBits, b: FloatBits)
    ensures
        a.lt(b) <==> !a.is_nan() && !b.is_nan() && a.rank() < b.rank(),
{
}

/// `<=` is reflexive on every number that is not a NaN.
pub proof fn lemma_le_reflexive(a: FloatBits)
    requires
        !a.is_nan(),
    ensures
        a.le(a),
{
}

/// `<=` is transitive.
pub proof fn lemma_le_transitive(a: FloatBits, b: FloatBits, c: FloatBits)
    requires
        a.le(b),
        b.le(c),
    ensures
        a.le(c),
{
}

/// Of two numbers that are not NaN, one is at most the other.
pub proof fn lemma_le_total(a: FloatBits, b: FloatBits)
    requires
        !a.is_nan(),
        !b.is_nan(),
    ensures
        a.le(b) || b.le(a),
{
}

} // verus!
