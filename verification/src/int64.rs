//! A concrete scalar: the 64-bit signed integers with wrapping arithmetic.
//!
//! Sums, differences and products are taken modulo 2^64, which makes the
//! type a commutative ring: every vector identity that holds over exact
//! scalars holds here, overflow included. Division truncates toward zero,
//! and a zero divisor yields zero. A shift moves the two's-complement bits,
//! which for an integer is the same as halving the value and rounding down.

use crate::binary64::{exponent_field, fraction_field, truncate, truncated, whole_magnitude};
use crate::decimal::{decimal, render};
use crate::exact::{lemma_mul_zero, ExactScalar};
use crate::scalar::Scalar;
use crate::vec3::{
    cross3, dot3, length3, root_quotient, Vec3, HALF_BITS, SEED_BITS, ZERO_BITS,
};
use vstd::arithmetic::div_mod::{
    lemma_fundamental_div_mod, lemma_fundamental_div_mod_converse_div, lemma_mod_multiples_vanish,
};
use vstd::arithmetic::power2::{lemma2_to64, lemma2_to64_rest, lemma_pow2_pos, pow2};
use vstd::bits::lemma_u64_shr_is_div;
use vstd::prelude::*;

verus! {

/// The number of values of the type, 2^64.
pub open spec fn modulus() -> int {
    0x1_0000_0000_0000_0000
}

/// The one 64-bit signed integer that differs from `x` by a multiple of
/// 2^64.
pub open spec fn wrap(x: int) -> i64 {
    let r = x % modulus();
    if r > i64::MAX {
        (r - modulus()) as i64
    } else {
        r as i64
    }
}

/// The quotient of `x` by `d`, rounded toward zero.
pub open spec fn trunc_div(x: int, d: int) -> int
    recommends
        d != 0,
{
    if x >= 0 && d > 0 {
        x / d
    } else if x < 0 && d < 0 {
        (-x) / (-d)
    } else if x < 0 {
        -((-x) / d)
    } else {
        -(x / (-d))
    }
}

/// The number of places that a shift by `n` moves: `n` reduced modulo 64.
pub open spec fn shift_places(n: i32) -> nat {
    (n as int % 64) as nat
}

/// Wrapping changes a number by a multiple of 2^64, which is returned.
pub proof fn lemma_wrap_offset(x: int) -> (k: int)
    ensures
        wrap(x) == x + k * modulus(),
{
    if x % modulus() > i64::MAX {
        -(x / modulus()) - 1
    } else {
        -(x / modulus())
    }
}

/// Numbers that differ by a multiple of 2^64 wrap to the same integer.
pub proof fn lemma_wrap_shift(x: int, k: int)
    ensures
        wrap(x + k * modulus()) == wrap(x),
{
    lemma_mod_multiples_vanish(k, x, modulus());
    assert(modulus() * k + x == x + k * modulus()) by (nonlinear_arith);
}

/// Shifting the two's-complement bits of an integer right by `k` places
/// divides it by 2^k and rounds down, whatever its sign.
pub proof fn lemma_shr_is_floor_div(x: i64, k: u32)
    requires
        k < 64,
    ensures
        (x >> k) as int == x as int / pow2(k as nat) as int,
{
    let p = pow2(k as nat) as int;
    lemma_pow2_pos(k as nat);
    if x >= 0 {
        assert(x >= 0 ==> (x >> k) == ((x as u64) >> (k as u64)) as i64) by (bit_vector)
            requires
                k < 64,
        ;
        lemma_u64_shr_is_div(x as u64, k as u64);
    } else {
        let y: i64 = !x;
        assert(x < 0 ==> (x >> k) == !((!x) >> k) && !x >= 0 && !x == -x - 1) by (bit_vector)
            requires
                k < 64,
        ;
        assert(y >= 0 ==> (y >> k) == ((y as u64) >> (k as u64)) as i64 && (y >> k) >= 0)
            by (bit_vector)
            requires
                k < 64,
        ;
        lemma_u64_shr_is_div(y as u64, k as u64);
        let q: i64 = y >> k;
        assert(!q == -q - 1) by (bit_vector);
        assert(q as int == (-x - 1) / p);
        // With x == p * a + r and 0 <= r < p, the complement -x - 1 is
        // p * (-a - 1) + (p - 1 - r), so its quotient is -a - 1.
        let a = x as int / p;
        let r = x as int % p;
        lemma_fundamental_div_mod(x as int, p);
        assert(-x - 1 == (-a - 1) * p + (p - 1 - r)) by (nonlinear_arith)
            requires
                x == p * a + r,
        ;
        lemma_fundamental_div_mod_converse_div(-x - 1, p, -a - 1, p - 1 - r);
    }
}

/// A 64-bit signed integer, with arithmetic modulo 2^64.
#[derive(Clone, Copy, Debug, PartialEq, Eq, Structural)]
pub struct Int64(pub i64);

impl View for Int64 {
    type V = int;

    open spec fn view(&self) -> int {
        self.0 as int
    }
}

impl Default for Int64 {
    fn default() -> (r: Self)
        ensures
            r == Int64(0),
    {
        Int64(0)
    }
}

impl Scalar for Int64 {
    open spec fn add_spec(self, rhs: Self) -> Self {
        Int64(wrap(self@ + rhs@))
    }

    open spec fn sub_spec(self, rhs: Self) -> Self {
        Int64(wrap(self@ - rhs@))
    }

    open spec fn mul_spec(self, rhs: Self) -> Self {
        Int64(wrap(self@ * rhs@))
    }

    open spec fn div_spec(self, rhs: Self) -> Self {
        if rhs@ == 0 {
            Int64(0)
        } else {
            Int64(wrap(trunc_div(self@, rhs@)))
        }
    }

    open spec fn shr_spec(self, n: i32) -> Self {
        Int64(wrap(self@ / pow2(shift_places(n)) as int))
    }

    /// The number rounded toward zero, and held to the integer's range.
    open spec fn from_f64_bits_spec(bits: u64) -> Self {
        Int64(truncated(bits) as i64)
    }

    /// The integer in decimal.
    open spec fn text_spec(self) -> Seq<char> {
        decimal(self@)
    }

    fn add(self, rhs: Self) -> (r: Self) {
        Int64(self.0.wrapping_add(rhs.0))
    }

    fn sub(self, rhs: Self) -> (r: Self) {
        Int64(self.0.wrapping_sub(rhs.0))
    }

    fn mul(self, rhs: Self) -> (r: Self) {
        Int64(self.0.wrapping_mul(rhs.0))
    }

    fn div(self, rhs: Self) -> (r: Self) {
        if rhs.0 == 0 {
            Int64(0)
        } else {
            match self.0.checked_div(rhs.0) {
                Some(q) => Int64(q),
                None => Int64(i64::MIN),
            }
        }
    }

    fn shr(self, n: i32) -> (r: Self) {
        let places: u32 = if n >= 0 {
            (n as u32) % 64
        } else {
            63 - ((-(n + 1)) as u32) % 64
        };
        proof {
            lemma_shr_is_floor_div(self.0, places);
        }
        Int64(self.0.wrapping_shr(places))
    }

    fn from_f64_bits(bits: u64) -> (r: Self) {
        Int64(truncate(bits))
    }

    fn to_text(&self) -> (s: String) {
        render(self.0)
    }
}

/// What the three literals of the vector algebra come to as integers: 0.0
/// is 0, the seed of the length approximation is 0x1fbd3f7d, and 0.5 is
/// rounded toward zero.
pub proof fn lemma_literals()
    ensures
        Int64::from_f64_bits_spec(ZERO_BITS) == Int64(0),
        Int64::from_f64_bits_spec(SEED_BITS) == Int64(0x1fbd_3f7d),
        Int64::from_f64_bits_spec(HALF_BITS) == Int64(0),
{
    lemma2_to64();
    lemma2_to64_rest();
    assert(exponent_field(ZERO_BITS) == 0 && fraction_field(ZERO_BITS) == 0);
    assert(exponent_field(SEED_BITS) == 1051 && fraction_field(SEED_BITS) == 0xf_bd3f_7d00_0000);
    assert(exponent_field(HALF_BITS) == 1022 && fraction_field(HALF_BITS) == 0);
    lemma_pow2_pos(1074);
    assert(pow2(24) == 0x100_0000 && pow2(53) == 0x20_0000_0000_0000);
    assert(whole_magnitude(SEED_BITS) == 0x1f_bd3f_7d00_0000int / 0x100_0000);
    assert(whole_magnitude(HALF_BITS) == 0x10_0000_0000_0000int / 0x20_0000_0000_0000);
}

impl ExactScalar for Int64 {
    proof fn lemma_add_commutative(a: Self, b: Self) {
    }

    proof fn lemma_add_associative(a: Self, b: Self, c: Self) {
        let j = lemma_wrap_offset(a@ + b@);
        let k = lemma_wrap_offset(b@ + c@);
        lemma_wrap_shift(a@ + b@ + c@, j);
        lemma_wrap_shift(a@ + b@ + c@, k);
    }

    proof fn lemma_add_zero(a: Self) {
        lemma_literals();
    }

    proof fn lemma_add_then_sub(a: Self, b: Self) {
        let k = lemma_wrap_offset(a@ + b@);
        lemma_wrap_shift(a@, k);
    }

    proof fn lemma_sub_then_add(a: Self, b: Self) {
        let k = lemma_wrap_offset(a@ - b@);
        lemma_wrap_shift(a@, k);
    }

    proof fn lemma_mul_commutative(a: Self, b: Self) {
        assert(a@ * b@ == b@ * a@) by (nonlinear_arith);
    }

    proof fn lemma_mul_associative(a: Self, b: Self, c: Self) {
        let m = modulus();
        let j = lemma_wrap_offset(a@ * b@);
        let k = lemma_wrap_offset(b@ * c@);
        assert((a@ * b@ + j * m) * c@ == a@ * b@ * c@ + (j * c@) * m) by (nonlinear_arith);
        assert(a@ * (b@ * c@ + k * m) == a@ * b@ * c@ + (a@ * k) * m) by (nonlinear_arith);
        lemma_wrap_shift(a@ * b@ * c@, j * c@);
        lemma_wrap_shift(a@ * b@ * c@, a@ * k);
    }

    proof fn lemma_mul_distributes(a: Self, b: Self, c: Self) {
        let m = modulus();
        let i = lemma_wrap_offset(a@ - b@);
        let j = lemma_wrap_offset(a@ * c@);
        let k = lemma_wrap_offset(b@ * c@);
        assert((a@ - b@ + i * m) * c@ == a@ * c@ - b@ * c@ + (i * c@) * m) by (nonlinear_arith);
        assert((a@ * c@ + j * m) - (b@ * c@ + k * m) == a@ * c@ - b@ * c@ + (j - k) * m)
            by (nonlinear_arith);
        lemma_wrap_shift(a@ * c@ - b@ * c@, i * c@);
        lemma_wrap_shift(a@ * c@ - b@ * c@, j - k);
    }
}

/// The inner product of integer vectors is the inner product of the
/// integers, reduced modulo 2^64: it is exact whenever the true value fits.
pub proof fn lemma_dot_wraps_once(v: Vec3<Int64>, w: Vec3<Int64>)
    ensures
        dot3(v@, w@) == Int64(wrap(v@.0@ * w@.0@ + v@.1@ * w@.1@ + v@.2@ * w@.2@)),
        i64::MIN <= v@.0@ * w@.0@ + v@.1@ * w@.1@ + v@.2@ * w@.2@ <= i64::MAX ==> dot3(v@, w@)@
            == v@.0@ * w@.0@ + v@.1@ * w@.1@ + v@.2@ * w@.2@,
{
    let m = modulus();
    let (a, b, c) = (v@.0@ * w@.0@, v@.1@ * w@.1@, v@.2@ * w@.2@);
    let i = lemma_wrap_offset(a);
    let j = lemma_wrap_offset(b);
    let k = lemma_wrap_offset(c);
    let l = lemma_wrap_offset(wrap(a) + wrap(b));
    assert(wrap(wrap(a) + wrap(b)) + wrap(c) == a + b + c + (i + j + k + l) * m)
        by (nonlinear_arith)
        requires
            wrap(a) == a + i * m,
            wrap(b) == b + j * m,
            wrap(c) == c + k * m,
            wrap(wrap(a) + wrap(b)) == wrap(a) + wrap(b) + l * m,
    ;
    lemma_wrap_shift(a + b + c, i + j + k + l);
}

/// The squared length of an integer vector is not negative, as long as the
/// sum of the squares fits.
pub proof fn lemma_length_squared_not_negative(v: Vec3<Int64>)
    requires
        v@.0@ * v@.0@ + v@.1@ * v@.1@ + v@.2@ * v@.2@ <= i64::MAX,
    ensures
        dot3(v@, v@)@ >= 0,
{
    lemma_dot_wraps_once(v, v);
    assert(v@.0@ * v@.0@ >= 0 && v@.1@ * v@.1@ >= 0 && v@.2@ * v@.2@ >= 0) by (nonlinear_arith);
}

/// Each component of the cross product of integer vectors is that of the
/// integers, reduced modulo 2^64.
pub proof fn lemma_cross_wraps_once(v: Vec3<Int64>, w: Vec3<Int64>)
    ensures
        cross3(v@, w@) == (
            Int64(wrap(v@.1@ * w@.2@ - v@.2@ * w@.1@)),
            Int64(wrap(v@.2@ * w@.0@ - v@.0@ * w@.2@)),
            Int64(wrap(v@.0@ * w@.1@ - v@.1@ * w@.0@)),
        ),
{
    lemma_difference_wraps_once(v@.1@ * w@.2@, v@.2@ * w@.1@);
    lemma_difference_wraps_once(v@.2@ * w@.0@, v@.0@ * w@.2@);
    lemma_difference_wraps_once(v@.0@ * w@.1@, v@.1@ * w@.0@);
}

proof fn lemma_difference_wraps_once(a: int, b: int)
    ensures
        wrap(wrap(a) - wrap(b)) == wrap(a - b),
{
    let m = modulus();
    let i = lemma_wrap_offset(a);
    let j = lemma_wrap_offset(b);
    assert(wrap(a) - wrap(b) == a - b + (i - j) * m) by (nonlinear_arith)
        requires
            wrap(a) == a + i * m,
            wrap(b) == b + j * m,
    ;
    lemma_wrap_shift(a - b, i - j);
}

/// Over the integers the approximate length of every vector is zero: its
/// last step multiplies by one half, which as an integer is zero.
pub proof fn lemma_length_vanishes(v: Vec3<Int64>)
    ensures
        length3(v@) == Int64(0),
{
    lemma_literals();
    lemma_mul_zero(root_quotient(dot3(v@, v@)));
}

} // verus!
