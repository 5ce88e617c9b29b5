//! Durations in seconds, held by their IEEE 754 binary64 encoding.

use vstd::prelude::*;

verus! {

/// The exponent field of a binary64 encoding: bits 52 to 62.
pub open spec fn exponent_field(bits: u64) -> int {
    (bits as int / 0x10_0000_0000_0000) % 0x800
}

/// Whether the encoding stands for a number: neither an infinity nor a NaN,
/// which are the encodings whose exponent field is all ones.
pub open spec fn encodes_finite(bits: u64) -> bool {
    exponent_field(bits) != 0x7ff
}

/// Whether the encoding stands for a value below zero: the sign bit is set
/// and the value is not the negative zero.
pub open spec fn encodes_negative(bits: u64) -> bool {
    bits > 0x8000_0000_0000_0000
}

/// A duration in seconds, as the bits of its binary64 encoding.
#[derive(Clone, Copy, Debug, PartialEq, Eq, Structural)]
pub struct Seconds {
    pub bits: u64,
}

impl Seconds {
    /// The duration with the given encoding.
    pub fn from_bits(bits: u64) -> (r: Seconds)
        ensures
            r.bits == bits,
    {
        Seconds { bits }
    }

    /// The duration's encoding.
    pub fn to_bits(&self) -> (r: u64)
        ensures
            r == self.bits,
    {
        self.bits
    }

    /// Whether the duration is a number, not an infinity or a NaN.
    pub fn is_finite(&self) -> (r: bool)
        ensures
            r == encodes_finite(self.bits),
    {
        let bits: u64 = self.bits;
        let field: u64 = (bits >> 52) & 0x7ff;
        assert(field == (bits as int / 0x10_0000_0000_0000) % 0x800) by {
            assert((bits >> 52) & 0x7ff == (bits / 0x10_0000_0000_0000) % 0x800) by (bit_vector);
        }
        field != 0x7ff
    }

    /// Whether the duration is below zero.
    pub fn is_negative(&self) -> (r: bool)
        ensures
            r == encodes_negative(self.bits),
    {
        self.bits > 0x8000_0000_0000_0000
    }
}

} // verus!
