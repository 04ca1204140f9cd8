//! The arithmetic that a vector component must offer.

use vstd::prelude::*;

verus! {

/// The characters of a rendered scalar.
pub type Text = Seq<char>;

/// A number that can serve as a vector component.
///
/// Every operation is total and is a function of its operands alone: the
/// spec function of each operation names its result, and the executable
/// method returns exactly that value. Nothing else is asked of an
/// implementation here, so that rounding, wrapping and saturating scalars all
/// qualify; algebraic laws are asked for separately, by [`ExactScalar`].
///
/// [`ExactScalar`]: crate::exact::ExactScalar
pub trait Scalar: Copy {
    /// The sum `self + rhs`.
    spec fn add_spec(self, rhs: Self) -> Self;

    /// The difference `self - rhs`.
    spec fn sub_spec(self, rhs: Self) -> Self;

    /// The product `self * rhs`.
    spec fn mul_spec(self, rhs: Self) -> Self;

    /// The quotient `self / rhs`. It is defined for every divisor; what a
    /// zero divisor yields is the implementation's choice.
    spec fn div_spec(self, rhs: Self) -> Self;

    /// `self` shifted right by `n` places.
    spec fn shr_spec(self, n: i32) -> Self;

    /// The scalar that stands for the double-precision number whose IEEE 754
    /// binary64 encoding is `bits`.
    spec fn from_f64_bits_spec(bits: u64) -> Self;

    /// The characters that render `self`.
    spec fn text_spec(self) -> Text;

    fn add(self, rhs: Self) -> (r: Self)
        ensures
            r == self.add_spec(rhs),
    ;

    fn sub(self, rhs: Self) -> (r: Self)
        ensures
            r == self.sub_spec(rhs),
    ;

    fn mul(self, rhs: Self) -> (r: Self)
        ensures
            r == self.mul_spec(rhs),
    ;

    fn div(self, rhs: Self) -> (r: Self)
        ensures
            r == self.div_spec(rhs),
    ;

    fn shr(self, n: i32) -> (r: Self)
        ensures
            r == self.shr_spec(n),
    ;

    /// Builds a scalar from a double-precision literal, handed over as its
    /// IEEE 754 binary64 encoding.
    fn from_f64_bits(bits: u64) -> (r: Self)
        ensures
            r == Self::from_f64_bits_spec(bits),
    ;

    /// Renders the scalar as text.
    fn to_text(&self) -> (s: String)
        ensures
            s@ == self.text_spec(),
    ;
}

} // verus!
