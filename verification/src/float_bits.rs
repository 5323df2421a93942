//! Reading numbers out of the bit patterns of IEEE-754 floats.

use vstd::arithmetic::power2::{lemma2_to64, lemma2_to64_rest, lemma_pow2_strictly_increases, pow2};
use vstd::prelude::*;

verus! {

/// Whether the bits are those of a negative double.
pub open spec fn spec_double_negative(bits: u64) -> bool {
    bits >= 0x8000_0000_0000_0000
}

/// The exponent field of a double.
pub open spec fn spec_double_exponent(bits: u64) -> int {
    (bits as int / 0x10_0000_0000_0000) % 0x800
}

/// The fraction field of a double.
pub open spec fn spec_double_fraction(bits: u64) -> int {
    bits as int % 0x10_0000_0000_0000
}

/// The integer that a double is cut to: the value with its fraction
/// dropped, held to the 32-bit range; zero for what is no number.
///
/// A double with exponent field `e` and fraction `f` is
/// `(2^52 + f) * 2^(e - 1075)` in magnitude. Below `e = 1023` that is under
/// one; from `e = 1054` on it is at least `2^31`.
pub open spec fn spec_double_to_i32(bits: u64) -> i32 {
    let exponent = spec_double_exponent(bits);
    let fraction = spec_double_fraction(bits);
    if exponent == 0x7FF && fraction != 0 {
        0
    } else if exponent < 1023 {
        0
    } else if exponent >= 1054 {
        if spec_double_negative(bits) {
            i32::MIN
        } else {
            i32::MAX
        }
    } else {
        let magnitude = (0x10_0000_0000_0000 + fraction) / (pow2((1075 - exponent) as nat) as int);
        if spec_double_negative(bits) {
            (-magnitude) as i32
        } else {
            magnitude as i32
        }
    }
}

/// Cuts the double with the given bits to a 32-bit integer, as a cast does.
pub fn double_to_i32(bits: u64) -> (value: i32)
    ensures
        value == spec_double_to_i32(bits),
{
    let negative: bool = bits >= 0x8000_0000_0000_0000;
    let exponent: u64 = (bits / 0x10_0000_0000_0000) % 0x800;
    let fraction: u64 = bits % 0x10_0000_0000_0000;
    if exponent == 0x7FF && fraction != 0 {
        0
    } else if exponent < 1023 {
        0
    } else if exponent >= 1054 {
        if negative {
            i32::MIN
        } else {
            i32::MAX
        }
    } else {
        let shift: u64 = 1075 - exponent;
        let mantissa: u64 = 0x10_0000_0000_0000 + fraction;
        let magnitude: u64 = mantissa >> shift;
        proof {
            vstd::bits::lemma_u64_shr_is_div(mantissa, shift);
            lemma2_to64();
            lemma2_to64_rest();
            // 22 <= shift <= 52, so 2^22 <= 2^shift and the quotient is below 2^31.
            if shift > 22 {
                lemma_pow2_strictly_increases(22, shift as nat);
            }
            assert(pow2(22) == 0x40_0000) by {
                vstd::arithmetic::power2::lemma_pow2_adds(16, 6);
            }
            assert(mantissa < 0x20_0000_0000_0000);
            assert(magnitude < 0x8000_0000) by {
                let d = pow2(shift as nat) as int;
                assert(d >= 0x40_0000);
                assert(mantissa as int / d < 0x8000_0000) by (nonlinear_arith)
                    requires
                        d >= 0x40_0000,
                        0 <= mantissa < 0x20_0000_0000_0000,
                ;
            }
        }
        if negative {
            -(magnitude as i64) as i32
        } else {
            magnitude as i32
        }
    }
}

} // verus!
