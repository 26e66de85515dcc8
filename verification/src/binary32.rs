//! IEEE-754 binary32 values as bit patterns.
//!
//! A scalar of the service is a binary32 number. This crate does no
//! arithmetic on it; it only classifies it, which the bit pattern alone
//! decides: one sign bit, eight exponent bits, twenty-three fraction bits.

use vstd::prelude::*;

verus! {

/// The sign bit of a binary32 bit pattern.
pub const SIGN_BIT: u32 = 0x8000_0000;

/// The bit pattern of positive infinity: all exponent bits set, no fraction.
pub const INFINITY_BITS: u32 = 0x7f80_0000;

/// An IEEE-754 binary32 value, held by its bit pattern.
#[derive(Clone, Copy, Debug, PartialEq, Eq, Structural)]
pub struct Binary32 {
    pub bits: u32,
}

impl Binary32 {
    /// The bit pattern without its sign bit.
    pub open spec fn magnitude(self) -> u32 {
        if self.bits >= SIGN_BIT {
            (self.bits - SIGN_BIT) as u32
        } else {
            self.bits
        }
    }

    /// The sign bit is set. This holds of negative numbers, of negative zero,
    /// of negative infinity and of a NaN with the sign bit set.
    pub open spec fn spec_is_sign_negative(self) -> bool {
        self.bits >= SIGN_BIT
    }

    /// Not a number: all exponent bits set and a fraction that is not zero.
    pub open spec fn spec_is_nan(self) -> bool {
        self.magnitude() > INFINITY_BITS
    }

    /// Positive or negative zero.
    pub open spec fn spec_is_zero(self) -> bool {
        self.magnitude() == 0
    }

    /// Below zero as an extended real number: a negative number that is not
    /// zero, or negative infinity. Never a NaN.
    pub open spec fn spec_is_strictly_negative(self) -> bool {
        self.spec_is_sign_negative() && !self.spec_is_nan() && !self.spec_is_zero()
    }

    /// The value with the given bit pattern.
    pub fn from_bits(bits: u32) -> (value: Binary32)
        ensures
            value.bits == bits,
    {
        Binary32 { bits }
    }

    /// The bit pattern of the value.
    pub fn to_bits(self) -> (bits: u32)
        ensures
            bits == self.bits,
    {
        self.bits
    }

    #[verifier::when_used_as_spec(spec_is_sign_negative)]
    pub fn is_sign_negative(self) -> (r: bool)
        ensures
            r == self.spec_is_sign_negative(),
    {
        let bits = self.bits;
        assert((bits & 0x8000_0000 != 0) == (bits >= 0x8000_0000)) by (bit_vector);
        self.bits & SIGN_BIT != 0
    }

    #[verifier::when_used_as_spec(spec_is_nan)]
    pub fn is_nan(self) -> (r: bool)
        ensures
            r == self.spec_is_nan(),
    {
        let bits = self.bits;
        assert(bits & 0x7fff_ffff == if bits >= 0x8000_0000 {
            (bits - 0x8000_0000) as u32
        } else {
            bits
        }) by (bit_vector);
        self.bits & 0x7fff_ffff > INFINITY_BITS
    }

    #[verifier::when_used_as_spec(spec_is_zero)]
    pub fn is_zero(self) -> (r: bool)
        ensures
            r == self.spec_is_zero(),
    {
        let bits = self.bits;
        assert(bits & 0x7fff_ffff == if bits >= 0x8000_0000 {
            (bits - 0x8000_0000) as u32
        } else {
            bits
        }) by (bit_vector);
        self.bits & 0x7fff_ffff == 0
    }

    #[verifier::when_used_as_spec(spec_is_strictly_negative)]
    pub fn is_strictly_negative(self) -> (r: bool)
        ensures
            r == self.spec_is_strictly_negative(),
    {
        self.is_sign_negative() && !self.is_nan() && !self.is_zero()
    }
}

} // verus!
