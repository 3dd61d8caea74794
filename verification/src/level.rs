//! Levels: amplitudes as whole numbers.
//!
//! Audio arrives as IEEE-754 single-precision samples. The engine works on
//! whole numbers instead: a level is a magnitude in units of `2^-32` of full
//! scale, so that full scale, the sample `1.0`, is the level `2^32`. A sample
//! is converted from its bit pattern by dropping what lies below one unit;
//! what lies above the largest level, infinities and not-a-number patterns
//! included, becomes the largest level.

use vstd::prelude::*;
use vstd::arithmetic::power2::{lemma2_to64, lemma2_to64_rest, lemma_pow2_strictly_increases, pow2};
use vstd::arithmetic::div_mod::lemma_basic_div;
use vstd::arithmetic::mul::lemma_mul_upper_bound;
use vstd::bits::{lemma_u64_shl_is_mul, lemma_u64_shr_is_div};

verus! {

/// The level of full scale, the sample `1.0`.
pub const LEVEL_ONE: u64 = 0x1_0000_0000;

/// The largest level.
pub const LEVEL_MAX: u64 = 0x7fff_ffff_ffff_ffff;

/// The biased exponent of a single-precision bit pattern.
pub open spec fn exponent_field(bits: u32) -> nat {
    ((bits / 0x80_0000) % 0x100) as nat
}

/// The significand of a normal single-precision bit pattern, with its
/// leading one.
pub open spec fn significand(bits: u32) -> nat {
    (0x80_0000 + bits % 0x80_0000) as nat
}

/// Whether the sign bit of a single-precision bit pattern is set.
pub open spec fn is_negative(bits: u32) -> bool {
    bits >= 0x8000_0000
}

/// The magnitude of the sample with the bit pattern `bits`, as a level.
///
/// A normal sample is `significand * 2^(exponent - 150)`, which is
/// `significand * 2^(exponent - 118)` units. Subnormal samples lie below one
/// unit.
pub open spec fn level_of(bits: u32) -> nat {
    let e = exponent_field(bits);
    let m = significand(bits);
    if e == 0 {
        0
    } else if e >= 158 {
        LEVEL_MAX as nat
    } else if e >= 118 {
        m * pow2((e - 118) as nat)
    } else {
        m / pow2((118 - e) as nat)
    }
}

/// The sample with the bit pattern `bits` as a threshold: its level, negated
/// where the sample is negative.
pub open spec fn threshold_of(bits: u32) -> int {
    if is_negative(bits) {
        -(level_of(bits) as int)
    } else {
        level_of(bits) as int
    }
}

/// No level exceeds the largest one.
pub proof fn level_is_bounded(bits: u32)
    ensures
        level_of(bits) <= LEVEL_MAX,
{
    let e = exponent_field(bits);
    let m = significand(bits);
    lemma2_to64();
    lemma2_to64_rest();
    if 118 <= e < 158 {
        let shift = (e - 118) as nat;
        if shift < 39 {
            lemma_pow2_strictly_increases(shift, 39);
        }
        lemma_mul_upper_bound(m as int, 0xff_ffff, pow2(shift) as int, pow2(39) as int);
    } else if 0 < e < 118 {
        let shift = (118 - e) as nat;
        assert(pow2(shift) >= 1) by {
            if shift > 0 {
                lemma_pow2_strictly_increases(0, shift);
            }
        }
        assert(m / pow2(shift) <= m) by (nonlinear_arith)
            requires
                pow2(shift) >= 1,
        ;
    }
}

/// The magnitude of a sample, given by its bit pattern, as a level.
pub fn level_of_bits(bits: u32) -> (level: u64)
    ensures
        level == level_of(bits),
        level <= LEVEL_MAX,
{
    let exponent: u32 = (bits / 0x80_0000) % 0x100;
    let mantissa: u64 = 0x80_0000 + (bits % 0x80_0000) as u64;
    proof {
        level_is_bounded(bits);
        lemma2_to64();
        lemma2_to64_rest();
    }
    if exponent == 0 {
        0
    } else if exponent >= 158 {
        LEVEL_MAX
    } else if exponent >= 118 {
        let shift: u64 = (exponent - 118) as u64;
        proof {
            lemma_u64_shl_is_mul(mantissa, shift);
        }
        mantissa << shift
    } else {
        let shift: u64 = (118 - exponent) as u64;
        if shift >= 24 {
            proof {
                if shift > 24 {
                    lemma_pow2_strictly_increases(24, shift as nat);
                }
                lemma_basic_div(mantissa as int, pow2(shift as nat) as int);
            }
            0
        } else {
            proof {
                lemma_u64_shr_is_div(mantissa, shift);
            }
            mantissa >> shift
        }
    }
}

/// A sample, given by its bit pattern, as a threshold.
pub fn threshold_of_bits(bits: u32) -> (threshold: i64)
    ensures
        threshold == threshold_of(bits),
{
    let level = level_of_bits(bits);
    if bits >= 0x8000_0000 {
        -(level as i64)
    } else {
        level as i64
    }
}

} // verus!
