//! Real-valued fields of the model, held by their IEEE 754 bit pattern.
use vstd::prelude::*;

verus! {

/// An IEEE 754 double-precision number, stored as its 64-bit pattern.
///
/// The bit pattern is the value's identity: two numbers are equal exactly
/// when all 64 bits agree, so signed zeros differ and every NaN payload is
/// preserved.
#[derive(Debug, Clone, Copy, PartialEq, Eq, Hash, Structural)]
pub struct Binary64 {
    pub bits: u64,
}

impl Binary64 {
    /// The bit pattern of positive zero.
    pub open spec fn spec_zero() -> Binary64 {
        Binary64 { bits: 0 }
    }

    /// Positive zero, the value every running sum starts from.
    #[verifier::when_used_as_spec(spec_zero)]
    pub fn zero() -> (z: Binary64)
        ensures
            z == Binary64::spec_zero(),
    {
        Binary64 { bits: 0 }
    }

    /// The number whose bit pattern is `bits`.
    pub fn from_bits(bits: u64) -> (x: Binary64)
        ensures
            x.bits == bits,
    {
        Binary64 { bits }
    }

    /// The bit pattern of this number.
    pub fn to_bits(&self) -> (bits: u64)
        ensures
            bits == self.bits,
    {
        self.bits
    }
}

} // verus!
