//! Real numbers carried as IEEE 754 binary64 bit patterns.
//!
//! Amounts, rates and risk scores cross the boundary of this crate as the 64
//! bits of a double precision number.  Nothing here performs arithmetic on
//! them; the only operation the lending rules need is the strict order
//! between two numbers, which is decided on the bit patterns alone.

use vstd::prelude::*;

verus! {

/// The bit that holds the sign of a binary64 number.
pub const SIGN_BIT: u64 = 0x8000_0000_0000_0000;

/// The bit pattern of positive infinity; every larger magnitude is a NaN.
pub const INFINITY_BITS: u64 = 0x7FF0_0000_0000_0000;

/// A double precision number, held as its IEEE 754 binary64 bit pattern.
///
/// Two values are equal when their patterns are: the two zeros differ, and a
/// NaN equals itself.  Use `is_greater_than` to compare the numbers.
#[derive(Clone, Copy, Debug, PartialEq, Eq, Structural)]
pub struct Binary64 {
    pub bits: u64,
}

impl Binary64 {
    /// The pattern without its sign bit.
    pub open spec fn magnitude(&self) -> int {
        if self.bits >= SIGN_BIT {
            self.bits - SIGN_BIT
        } else {
            self.bits as int
        }
    }

    /// Whether the sign bit is set.
    pub open spec fn is_negative(&self) -> bool {
        self.bits >= SIGN_BIT
    }

    /// Whether the pattern encodes "not a number".
    pub open spec fn is_nan(&self) -> bool {
        self.magnitude() > INFINITY_BITS
    }

    /// An integer that orders all numbers other than NaN as IEEE 754 does:
    /// the magnitude, negated when the sign bit is set.  Both zeros map to 0.
    pub open spec fn order_key(&self) -> int {
        if self.is_negative() {
            -self.magnitude()
        } else {
            self.magnitude()
        }
    }

    /// The IEEE 754 comparison `self > other`: false when either side is NaN.
    pub open spec fn exceeds(&self, other: &Binary64) -> bool {
        !self.is_nan() && !other.is_nan() && self.order_key() > other.order_key()
    }

    /// Wraps a bit pattern.
    pub fn from_bits(bits: u64) -> (r: Binary64)
        ensures
            r.bits == bits,
    {
        Binary64 { bits }
    }

    /// The bit pattern.
    pub fn to_bits(&self) -> (bits: u64)
        ensures
            bits == self.bits,
    {
        self.bits
    }

    /// Decides `self > other` as IEEE 754 orders the two numbers.
    pub fn is_greater_than(&self, other: &Binary64) -> (r: bool)
        ensures
            r == self.exceeds(other),
    {
        let a_negative: bool = self.bits >= SIGN_BIT;
        let b_negative: bool = other.bits >= SIGN_BIT;
        let a_magnitude: u64 = if a_negative { self.bits - SIGN_BIT } else { self.bits };
        let b_magnitude: u64 = if b_negative { other.bits - SIGN_BIT } else { other.bits };
        if a_magnitude > INFINITY_BITS || b_magnitude > INFINITY_BITS {
            false
        } else if a_negative {
            b_negative && a_magnitude < b_magnitude
        } else if b_negative {
            a_magnitude > 0 || b_magnitude > 0
        } else {
            a_magnitude > b_magnitude
        }
    }
}

} // verus!
