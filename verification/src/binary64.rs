//! Reading a double-precision literal from its IEEE 754 binary64 encoding.
//!
//! An encoding is 64 bits: a sign, an exponent field of 11 bits and a
//! fraction field of 52 bits. A finite number has the magnitude
//! `significand * 2^(scale - 1075)`, with both factors defined below.

use vstd::arithmetic::div_mod::lemma_basic_div;
use vstd::arithmetic::mul::lemma_mul_inequality;
use vstd::arithmetic::power2::{
    lemma2_to64, lemma2_to64_rest, lemma_pow2_strictly_increases, pow2,
};
use vstd::bits::{lemma_u64_shl_is_mul, lemma_u64_shr_is_div};
use vstd::prelude::*;

verus! {

/// 2^52: the weight of the hidden bit of a normal number's significand.
pub const HIDDEN_BIT: u64 = 0x10_0000_0000_0000;

/// The exponent field of infinities and NaNs.
pub const EXPONENT_MAX: u64 = 0x7ff;

/// The exponent field of a number whose significand counts units.
pub const EXPONENT_UNIT: u64 = 1075;

pub open spec fn is_negative(bits: u64) -> bool {
    bits >= 0x8000_0000_0000_0000
}

pub open spec fn exponent_field(bits: u64) -> nat {
    (bits as nat / HIDDEN_BIT as nat) % 0x800
}

pub open spec fn fraction_field(bits: u64) -> nat {
    bits as nat % HIDDEN_BIT as nat
}

pub open spec fn is_nan(bits: u64) -> bool {
    exponent_field(bits) == EXPONENT_MAX && fraction_field(bits) != 0
}

pub open spec fn is_infinite(bits: u64) -> bool {
    exponent_field(bits) == EXPONENT_MAX && fraction_field(bits) == 0
}

/// The significand as a whole number: the fraction field, with the hidden
/// bit in front of it unless the number is subnormal or zero.
pub open spec fn significand(bits: u64) -> nat {
    if exponent_field(bits) == 0 {
        fraction_field(bits)
    } else {
        HIDDEN_BIT as nat + fraction_field(bits)
    }
}

/// The power of two that the significand is scaled by, offset by 1075.
pub open spec fn scale(bits: u64) -> nat {
    if exponent_field(bits) == 0 {
        1
    } else {
        exponent_field(bits)
    }
}

/// The magnitude of a finite number, rounded down to a whole number.
pub open spec fn whole_magnitude(bits: u64) -> nat {
    if scale(bits) >= EXPONENT_UNIT {
        significand(bits) * pow2((scale(bits) - EXPONENT_UNIT) as nat)
    } else {
        significand(bits) / pow2((EXPONENT_UNIT - scale(bits)) as nat)
    }
}

/// The number rounded toward zero to a 64-bit signed integer. What lies
/// beyond the integer's range, infinities included, goes to the nearest
/// bound; a NaN goes to zero.
pub open spec fn truncated(bits: u64) -> int {
    if is_nan(bits) {
        0
    } else if is_negative(bits) {
        if is_infinite(bits) || whole_magnitude(bits) > -(i64::MIN as int) {
            i64::MIN as int
        } else {
            -(whole_magnitude(bits) as int)
        }
    } else {
        if is_infinite(bits) || whole_magnitude(bits) > i64::MAX as int {
            i64::MAX as int
        } else {
            whole_magnitude(bits) as int
        }
    }
}

/// Rounds the encoded number toward zero to a 64-bit signed integer.
pub fn truncate(bits: u64) -> (r: i64)
    ensures
        r == truncated(bits),
{
    let negative = bits >= 0x8000_0000_0000_0000;
    let e: u64 = (bits >> 52) & 0x7ff;
    let f: u64 = bits & 0xf_ffff_ffff_ffff;
    proof {
        assert((bits >> 52) & 0x7ff == (bits / 0x10_0000_0000_0000) % 0x800) by (bit_vector);
        assert(bits & 0xf_ffff_ffff_ffff == bits % 0x10_0000_0000_0000) by (bit_vector);
        lemma2_to64();
        lemma2_to64_rest();
    }
    let bound: i64 = if negative {
        i64::MIN
    } else {
        i64::MAX
    };
    if e == EXPONENT_MAX {
        if f != 0 {
            0
        } else {
            bound
        }
    } else if e < 1023 {
        proof {
            let down = (EXPONENT_UNIT - scale(bits)) as nat;
            if down > 53 {
                lemma_pow2_strictly_increases(53, down);
            }
            lemma_basic_div(significand(bits) as int, pow2(down) as int);
        }
        0
    } else if e >= 1086 {
        proof {
            let up = (e - EXPONENT_UNIT) as nat;
            if up > 11 {
                lemma_pow2_strictly_increases(11, up);
            }
            lemma_mul_inequality(pow2(11) as int, pow2(up) as int, significand(bits) as int);
            assert(pow2(11) * significand(bits) >= 0x8000_0000_0000_0000) by (nonlinear_arith)
                requires
                    pow2(11) == 0x800,
                    significand(bits) >= 0x10_0000_0000_0000,
            ;
            assert(pow2(up) * significand(bits) == significand(bits) * pow2(up))
                by (nonlinear_arith);
        }
        bound
    } else {
        let sig: u64 = f + HIDDEN_BIT;
        let magnitude: u64 = if e >= EXPONENT_UNIT {
            let up: u64 = e - EXPONENT_UNIT;
            proof {
                if up < 10 {
                    lemma_pow2_strictly_increases(up as nat, 10);
                }
                lemma_mul_inequality(pow2(up as nat) as int, pow2(10) as int, sig as int);
                assert(pow2(10) * sig < 0x8000_0000_0000_0000) by (nonlinear_arith)
                    requires
                        pow2(10) == 0x400,
                        sig < 0x20_0000_0000_0000,
                ;
                assert(pow2(up as nat) * sig == sig * pow2(up as nat)) by (nonlinear_arith);
                lemma_u64_shl_is_mul(sig, up);
            }
            sig << up
        } else {
            let down: u64 = EXPONENT_UNIT - e;
            proof {
                lemma_u64_shr_is_div(sig, down);
            }
            sig >> down
        };
        if negative {
            -(magnitude as i64)
        } else {
            magnitude as i64
        }
    }
}

} // verus!
