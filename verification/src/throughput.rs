//! Measured download speed, held without floating point.
//!
//! The measurement tool reports a speed in MB/s as a decimal number. The
//! controller only ever compares two such numbers, so a speed is carried as
//! the bit pattern of its IEEE 754 binary64 encoding and compared on that
//! pattern: the comparison agrees with `<` on the doubles themselves.

use vstd::prelude::*;

verus! {

/// Everything but the sign bit of a binary64 pattern.
pub const MAGNITUDE_MASK: u64 = 0x7fff_ffff_ffff_ffff;

/// The magnitude of positive infinity; every larger magnitude is a NaN.
pub const INFINITY_MAGNITUDE: u64 = 0x7ff0_0000_0000_0000;

/// The sign bit of a binary64 pattern.
pub const SIGN_BIT: u64 = 0x8000_0000_0000_0000;

/// A speed in MB/s, as the bits of a binary64 number.
#[derive(Clone, Copy, Debug, PartialEq, Eq, Structural)]
pub struct Throughput {
    pub bits: u64,
}

impl Throughput {
    /// The pattern without its sign.
    pub open spec fn magnitude(self) -> u64 {
        self.bits & MAGNITUDE_MASK
    }

    /// Whether the sign bit is set.
    pub open spec fn negative(self) -> bool {
        self.bits & SIGN_BIT != 0
    }

    /// Whether the pattern encodes no number at all.
    pub open spec fn is_nan(self) -> bool {
        self.magnitude() > INFINITY_MAGNITUDE
    }

    /// Where the number stands on the number line: doubles of one sign are
    /// ordered as their magnitudes, and both zeros stand at 0.
    pub open spec fn rank(self) -> int {
        if self.negative() {
            -(self.magnitude() as int)
        } else {
            self.magnitude() as int
        }
    }

    /// `self < other` as binary64 numbers: false whenever either is a NaN.
    pub open spec fn below(self, other: Throughput) -> bool {
        !self.is_nan() && !other.is_nan() && self.rank() < other.rank()
    }

    /// Wraps the bits of a double.
    pub fn from_bits(bits: u64) -> (t: Throughput)
        ensures
            t.bits == bits,
    {
        Throughput { bits }
    }

    /// The bits of the double.
    pub fn to_bits(self) -> (bits: u64)
        ensures
            bits == self.bits,
    {
        self.bits
    }

    /// Tells whether the pattern is a NaN.
    pub fn nan(self) -> (r: bool)
        ensures
            r == self.is_nan(),
    {
        (self.bits & MAGNITUDE_MASK) > INFINITY_MAGNITUDE
    }

    /// Compares two speeds as the doubles they encode.
    pub fn is_below(self, other: Throughput) -> (r: bool)
        ensures
            r == self.below(other),
    {
        let mine: u64 = self.bits & MAGNITUDE_MASK;
        let theirs: u64 = other.bits & MAGNITUDE_MASK;
        if mine > INFINITY_MAGNITUDE || theirs > INFINITY_MAGNITUDE {
            return false;
        }
        let mine_negative = (self.bits & SIGN_BIT) != 0;
        let theirs_negative = (other.bits & SIGN_BIT) != 0;
        if mine_negative {
            if theirs_negative {
                mine > theirs
            } else {
                mine > 0 || theirs > 0
            }
        } else {
            if theirs_negative {
                false
            } else {
                mine < theirs
            }
        }
    }
}

} // verus!
