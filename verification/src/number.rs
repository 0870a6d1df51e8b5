//! Real numbers as they are stored: the bit pattern of an IEEE 754 binary64.

use vstd::prelude::*;

verus! {

/// The eleven exponent bits of a binary64 pattern.
pub open spec fn exponent_bits(bits: u64) -> u64 {
    (bits >> 52) & 0x7ff
}

/// A pattern stands for a finite number unless all exponent bits are set.
pub open spec fn finite_bits(bits: u64) -> bool {
    exponent_bits(bits) != 0x7ff
}

/// A real number held by its binary64 bit pattern.
///
/// The crate never computes with such a number; it stores it, hands it on and
/// compares it bit for bit.
#[derive(Clone, Copy, Debug, PartialEq, Eq, Structural)]
pub struct Real64 {
    pub bits: u64,
}

impl DeepView for Real64 {
    type V = u64;

    open spec fn deep_view(&self) -> u64 {
        self.bits
    }
}

impl Real64 {
    pub fn from_bits(bits: u64) -> (r: Real64)
        ensures
            r.bits == bits,
    {
        Real64 { bits }
    }

    pub fn to_bits(&self) -> (bits: u64)
        ensures
            bits == self.bits,
    {
        self.bits
    }

    /// Whether the pattern is neither an infinity nor a NaN.
    pub open spec fn finite(&self) -> bool {
        finite_bits(self.bits)
    }

    pub fn is_finite(&self) -> (r: bool)
        ensures
            r == self.finite(),
    {
        ((self.bits >> 52) & 0x7ff) != 0x7ff
    }
}

} // verus!
