//! Single-precision numbers, held as their IEEE 754 binary32 encoding, and
//! the order among them.
//!
//! An encoding is 32 bits: a sign, an exponent field of 8 bits and a
//! fraction field of 23 bits. Every finite number is a whole multiple of
//! 2^-149, so a number is modelled here by that multiple, an integer. The
//! comparisons are computed on the bits and proved to agree with the order
//! of the numbers themselves.

use vstd::arithmetic::power2::{
    lemma_pow2_pos, lemma_pow2_strictly_increases, lemma_pow2_unfold, pow2,
};
use vstd::prelude::*;

verus! {

/// The encoding of positive infinity; with the sign bit set, of negative
/// infinity. Magnitudes above it are NaNs.
pub const INFINITY_BITS: u32 = 0x7f80_0000;

/// The encoding of negative infinity.
pub const NEG_INFINITY_BITS: u32 = 0xff80_0000;

/// The sign bit.
pub const SIGN_BIT: u32 = 0x8000_0000;

/// 2^23: the weight of the hidden bit of a normal number's significand.
pub const HIDDEN_BIT: u32 = 0x80_0000;

/// The multiple of 2^-149 that the magnitude bits `m` encode, for `m` up to
/// [`INFINITY_BITS`]. Infinity itself comes out as 2^128, the power of two
/// above every finite number.
pub open spec fn magnitude_of(m: nat) -> nat {
    let exponent = m / HIDDEN_BIT as nat;
    let fraction = m % HIDDEN_BIT as nat;
    if exponent == 0 {
        fraction
    } else {
        (HIDDEN_BIT as nat + fraction) * pow2((exponent - 1) as nat)
    }
}

/// A larger encoding of a magnitude stands for a larger magnitude.
pub proof fn lemma_magnitude_increases(a: nat, b: nat)
    requires
        a < b,
    ensures
        magnitude_of(a) < magnitude_of(b),
{
    let h = HIDDEN_BIT as nat;
    let (ea, fa) = (a / h, a % h);
    let (eb, fb) = (b / h, b % h);
    assert(ea <= eb && (ea == eb ==> fa < fb));
    if ea == eb {
        if ea > 0 {
            let p = pow2((ea - 1) as nat);
            lemma_pow2_pos((ea - 1) as nat);
            assert((h + fa) * p < (h + fb) * p) by (nonlinear_arith)
                requires
                    fa < fb,
                    p > 0,
            ;
        }
    } else {
        // The least magnitude with exponent field `eb` is h * 2^(eb - 1),
        // and every magnitude with a smaller exponent field lies below it.
        let q = pow2((eb - 1) as nat);
        lemma_pow2_pos((eb - 1) as nat);
        assert(h * q <= (h + fb) * q) by (nonlinear_arith)
            requires
                q > 0,
        ;
        if ea == 0 {
            assert(h * 1 <= h * q) by (nonlinear_arith)
                requires
                    q >= 1,
            ;
        } else {
            let p = pow2((ea - 1) as nat);
            lemma_pow2_pos((ea - 1) as nat);
            lemma_pow2_unfold(ea);
            if ea < eb - 1 {
                lemma_pow2_strictly_increases(ea, (eb - 1) as nat);
            }
            assert((h + fa) * p < h * q) by (nonlinear_arith)
                requires
                    fa < h,
                    p > 0,
                    2 * p <= q,
            ;
        }
    }
}

/// A single-precision number.
#[derive(Clone, Copy, Debug)]
pub struct Binary32 {
    pub bits: u32,
}

impl Binary32 {
    pub open spec fn is_negative(self) -> bool {
        self.bits >= SIGN_BIT
    }

    /// The encoding without its sign bit.
    pub open spec fn magnitude_bits(self) -> nat {
        self.bits as nat % SIGN_BIT as nat
    }

    pub open spec fn is_nan(self) -> bool {
        self.magnitude_bits() > INFINITY_BITS
    }

    pub open spec fn is_infinite(self) -> bool {
        self.magnitude_bits() == INFINITY_BITS
    }

    pub open spec fn is_finite(self) -> bool {
        self.magnitude_bits() < INFINITY_BITS
    }

    /// The number as a multiple of 2^-149, for a number that is not a NaN.
    /// Both zeros have the value 0; the infinities stand at 2^128 and
    /// -(2^128).
    pub open spec fn value(self) -> int
        recommends
            !self.is_nan(),
    {
        if self.is_negative() {
            -(magnitude_of(self.magnitude_bits()) as int)
        } else {
            magnitude_of(self.magnitude_bits()) as int
        }
    }

    /// `self < other`: neither is a NaN, and `self` is the smaller number.
    pub open spec fn lt_spec(self, other: Self) -> bool {
        !self.is_nan() && !other.is_nan() && self.value() < other.value()
    }

    /// `self <= other`: neither is a NaN, and `self` is not the larger
    /// number.
    pub open spec fn le_spec(self, other: Self) -> bool {
        !self.is_nan() && !other.is_nan() && self.value() <= other.value()
    }

    /// The place of the number among all that are not NaNs, computed from
    /// the bits alone: the magnitude bits, with the sign of the number.
    pub open spec fn rank(self) -> int {
        if self.is_negative() {
            -(self.magnitude_bits() as int)
        } else {
            self.magnitude_bits() as int
        }
    }

    /// Numbers are ordered as their ranks are.
    pub proof fn lemma_rank_orders(self, other: Self)
        ensures
            self.rank() < other.rank() <==> self.value() < other.value(),
            self.rank() == other.rank() <==> self.value() == other.value(),
    {
        let (a, b) = (self.magnitude_bits(), other.magnitude_bits());
        if a < b {
            lemma_magnitude_increases(a, b);
        }
        if b < a {
            lemma_magnitude_increases(b, a);
        }
        if 0 < a {
            lemma_magnitude_increases(0, a);
        }
        if 0 < b {
            lemma_magnitude_increases(0, b);
        }
    }

    pub fn from_bits(bits: u32) -> (r: Self)
        ensures
            r.bits == bits,
    {
        Binary32 { bits }
    }

    pub fn to_bits(self) -> (r: u32)
        ensures
            r == self.bits,
    {
        self.bits
    }

    /// Whether the encoding is that of a NaN.
    pub fn is_not_a_number(self) -> (r: bool)
        ensures
            r == self.is_nan(),
    {
        let bits = self.bits;
        assert(bits & 0x7fff_ffff == bits % 0x8000_0000) by (bit_vector);
        bits & 0x7fff_ffff > INFINITY_BITS
    }

    fn rank_of(self) -> (r: i64)
        ensures
            r == self.rank(),
    {
        let bits = self.bits;
        assert(bits & 0x7fff_ffff == bits % 0x8000_0000) by (bit_vector);
        let m: u32 = bits & 0x7fff_ffff;
        if bits >= SIGN_BIT {
            -(m as i64)
        } else {
            m as i64
        }
    }

    /// Whether `self < other`.
    pub fn lt(self, other: Self) -> (r: bool)
        ensures
            r == self.lt_spec(other),
    {
        proof {
            self.lemma_rank_orders(other);
        }
        !self.is_not_a_number() && !other.is_not_a_number() && self.rank_of() < other.rank_of()
    }

    /// Whether `self <= other`.
    pub fn le(self, other: Self) -> (r: bool)
        ensures
            r == self.le_spec(other),
    {
        proof {
            self.lemma_rank_orders(other);
        }
        !self.is_not_a_number() && !other.is_not_a_number() && self.rank_of() <= other.rank_of()
    }
}

} // verus!
