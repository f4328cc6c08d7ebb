//! Controller gains as IEEE 754 binary64 bit patterns.
//!
//! The control law runs outside this crate in floating point.  A gain is
//! carried to it bit for bit; the only thing the core decides about a gain
//! is whether it encodes a finite number.

use vstd::prelude::*;

verus! {

/// Two to the power 52: the weight of the lowest exponent bit of a binary64.
pub const EXPONENT_UNIT: u64 = 0x10_0000_0000_0000;

/// The exponent field in which every bit is set; it marks infinities and NaNs.
pub const EXPONENT_ALL_ONES: u64 = 0x7ff;

/// A proportional, integral or derivative gain.
#[derive(Clone, Copy, Debug, PartialEq, Eq, Structural)]
pub struct Gain {
    /// The binary64 encoding: sign bit, eleven exponent bits, 52 fraction bits.
    pub bits: u64,
}

impl Gain {
    /// The biased exponent field, bits 52 to 62 of the encoding.
    pub open spec fn exponent(self) -> int {
        (self.bits as int / EXPONENT_UNIT as int) % (EXPONENT_ALL_ONES + 1)
    }

    /// Whether the encoding stands for a finite number, that is neither an
    /// infinity nor a NaN.
    pub open spec fn finite(self) -> bool {
        self.exponent() != EXPONENT_ALL_ONES
    }

    /// Wraps an encoding without judging it.
    pub fn from_bits(bits: u64) -> (gain: Gain)
        ensures
            gain.bits == bits,
    {
        Gain { bits }
    }

    /// The encoding, unchanged.
    pub fn to_bits(&self) -> (bits: u64)
        ensures
            bits == self.bits,
    {
        self.bits
    }

    /// Tells finite numbers from infinities and NaNs.
    pub fn is_finite(&self) -> (finite: bool)
        ensures
            finite == self.finite(),
    {
        let bits: u64 = self.bits;
        let field: u64 = (bits >> 52) & EXPONENT_ALL_ONES;
        assert(field == (bits / 0x10_0000_0000_0000) % 0x800) by (bit_vector)
            requires
                field == (bits >> 52) & 0x7ff,
        ;
        field != EXPONENT_ALL_ONES
    }
}

/// Each sign bit, with any fraction, over an exponent below the topmost is
/// finite; the topmost exponent never is.
pub proof fn lemma_finite_by_exponent(bits: u64)
    ensures
        bits < 0x7ff0_0000_0000_0000 ==> (Gain { bits }).finite(),
        0x7ff0_0000_0000_0000 <= bits <= 0x7fff_ffff_ffff_ffff ==> !(Gain { bits }).finite(),
        0x8000_0000_0000_0000 <= bits < 0xfff0_0000_0000_0000 ==> (Gain { bits }).finite(),
        0xfff0_0000_0000_0000 <= bits ==> !(Gain { bits }).finite(),
{
}

} // verus!
