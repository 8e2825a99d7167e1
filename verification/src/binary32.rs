//! Single-precision numbers handled through their bit patterns.

use vstd::arithmetic::power2::{lemma2_to64, lemma_pow2_pos, lemma_pow2_strictly_increases, pow2};
use vstd::bits::{lemma_u32_shl_is_mul, lemma_u32_shr_is_div};
use vstd::prelude::*;

verus! {

/// An IEEE 754 binary32 number, held as its 32-bit pattern: one sign bit,
/// eight exponent bits with bias 127, and 23 fraction bits.
#[derive(Clone, Copy, Debug, PartialEq, Eq, Structural)]
pub struct Binary32 {
    bits: u32,
}

/// The exponent field of a bit pattern.
pub open spec fn exponent_field(bits: u32) -> int {
    bits as int / 0x80_0000 % 256
}

/// The fraction field of a bit pattern.
pub open spec fn fraction_field(bits: u32) -> int {
    bits as int % 0x80_0000
}

/// Whether the sign bit of a bit pattern is set.
pub open spec fn sign_bit(bits: u32) -> bool {
    bits >= 0x8000_0000
}

/// The integer nearest to the number with pattern `bits` in the direction of
/// zero, kept within the range of `i32`.
///
/// Numbers of magnitude below one, and NaN, give 0. Numbers beyond the range,
/// the infinities among them, give the nearest end of the range.
pub open spec fn truncation(bits: u32) -> int {
    let e = exponent_field(bits);
    let significand = 0x80_0000 + fraction_field(bits);
    if e == 255 && fraction_field(bits) != 0 {
        0
    } else if e < 127 {
        0
    } else if e >= 158 {
        if sign_bit(bits) {
            i32::MIN as int
        } else {
            i32::MAX as int
        }
    } else {
        let magnitude = if e >= 150 {
            significand * pow2((e - 150) as nat)
        } else {
            significand / (pow2((150 - e) as nat) as int)
        };
        if sign_bit(bits) {
            -magnitude
        } else {
            magnitude
        }
    }
}

impl Binary32 {
    /// The bit pattern of the number.
    pub closed spec fn spec_bits(self) -> u32 {
        self.bits
    }

    /// A number is determined by its bit pattern.
    pub proof fn lemma_bits_determine(self, other: Binary32)
        requires
            self.spec_bits() == other.spec_bits(),
        ensures
            self == other,
    {
    }

    /// The number with the given bit pattern.
    pub fn from_bits(bits: u32) -> (number: Binary32)
        ensures
            number.spec_bits() == bits,
    {
        Binary32 { bits }
    }

    /// The number zero, whose pattern is all zero bits.
    pub fn zero() -> (number: Binary32)
        ensures
            number.spec_bits() == 0,
    {
        Binary32 { bits: 0 }
    }

    /// The number one.
    pub fn one() -> (number: Binary32)
        ensures
            number.spec_bits() == 0x3f80_0000,
    {
        Binary32 { bits: 0x3f80_0000 }
    }

    /// The bit pattern of the number.
    pub fn to_bits(self) -> (bits: u32)
        ensures
            bits == self.spec_bits(),
    {
        self.bits
    }

    /// Rounds the number toward zero to an integer, saturating at the ends of
    /// the `i32` range; NaN gives 0.
    pub fn to_i32(self) -> (integer: i32)
        ensures
            integer == truncation(self.spec_bits()),
    {
        let bits = self.bits;
        let e: u32 = (bits >> 23) & 0xff;
        let fraction: u32 = bits & 0x7f_ffff;
        let negative = bits >= 0x8000_0000;
        assert(e == bits / 0x80_0000 % 256 && fraction == bits % 0x80_0000) by (bit_vector)
            requires
                e == (bits >> 23) & 0xff,
                fraction == bits & 0x7f_ffff,
        ;
        if e == 255 && fraction != 0 {
            return 0;
        }
        if e < 127 {
            return 0;
        }
        if e >= 158 {
            return if negative {
                i32::MIN
            } else {
                i32::MAX
            };
        }
        let significand: u32 = 0x80_0000 + fraction;
        let magnitude: u32 = if e >= 150 {
            let shift: u32 = e - 150;
            proof {
                lemma2_to64();
                if shift < 7 {
                    lemma_pow2_strictly_increases(shift as nat, 7);
                }
                assert(significand * pow2(shift as nat) <= 0xff_ffff * 128) by (nonlinear_arith)
                    requires
                        significand <= 0xff_ffff,
                        pow2(shift as nat) <= 128,
                ;
                lemma_u32_shl_is_mul(significand, shift);
            }
            significand << shift
        } else {
            let shift: u32 = 150 - e;
            proof {
                lemma_pow2_pos(shift as nat);
                lemma_u32_shr_is_div(significand, shift);
                assert(significand as int / (pow2(shift as nat) as int) <= significand)
                    by (nonlinear_arith)
                    requires
                        pow2(shift as nat) > 0,
                ;
            }
            significand >> shift
        };
        if negative {
            -(magnitude as i32)
        } else {
            magnitude as i32
        }
    }
}

} // verus!
