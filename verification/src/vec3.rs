//! A three-component vector over an abstract scalar.
//!
//! A vector is modelled by the triple of its components. The spec functions
//! of this module define each operation on triples, in terms of the scalar's
//! own operations; the executable methods and operators return exactly those
//! values.

use crate::scalar::Scalar;
use core::ops::{Add, AddAssign, Div, DivAssign, Index, Mul, MulAssign, Neg, Sub};
use vstd::prelude::*;

verus! {

/// The components of a vector, in the order x, y, z.
pub type Triple<F> = (F, F, F);

/// The binary64 encoding of 532496253.0, which is 0x1fbd3f7d read as a
/// number: the constant that seeds the length approximation.
pub const SEED_BITS: u64 = 0x41bf_bd3f_7d00_0000;

/// The binary64 encoding of 0.5.
pub const HALF_BITS: u64 = 0x3fe0_0000_0000_0000;

/// The binary64 encoding of 0.0.
pub const ZERO_BITS: u64 = 0;

/// The scalar that stands for zero.
pub open spec fn zero<F: Scalar>() -> F {
    F::from_f64_bits_spec(ZERO_BITS)
}

/// The zero vector.
pub open spec fn zero3<F: Scalar>() -> Triple<F> {
    (zero::<F>(), zero::<F>(), zero::<F>())
}

/// The component at position `i`, for `i` in 0, 1, 2.
pub open spec fn component<F>(a: Triple<F>, i: int) -> F
    recommends
        0 <= i < 3,
{
    if i == 0 {
        a.0
    } else if i == 1 {
        a.1
    } else {
        a.2
    }
}

/// The inner product: the pairwise products, summed from left to right.
pub open spec fn dot3<F: Scalar>(a: Triple<F>, b: Triple<F>) -> F {
    a.0.mul_spec(b.0).add_spec(a.1.mul_spec(b.1)).add_spec(a.2.mul_spec(b.2))
}

/// The right-handed cross product.
pub open spec fn cross3<F: Scalar>(a: Triple<F>, b: Triple<F>) -> Triple<F> {
    (
        a.1.mul_spec(b.2).sub_spec(a.2.mul_spec(b.1)),
        a.2.mul_spec(b.0).sub_spec(a.0.mul_spec(b.2)),
        a.0.mul_spec(b.1).sub_spec(a.1.mul_spec(b.0)),
    )
}

/// The first guess at the root of `a`: the seed constant plus `a` shifted
/// right by one place.
pub open spec fn root_guess<F: Scalar>(a: F) -> F {
    F::from_f64_bits_spec(SEED_BITS).add_spec(a.shr_spec(1))
}

/// The quotient `(g * g + a) / g` for the guess `g` at the root of `a`.
pub open spec fn root_quotient<F: Scalar>(a: F) -> F {
    let g = root_guess(a);
    g.mul_spec(g).add_spec(a).div_spec(g)
}

/// The approximate root of `a`: one Newton step from [`root_guess`], that is
/// `((g * g + a) / g) * 0.5` for the guess `g`.
pub open spec fn approx_root<F: Scalar>(a: F) -> F {
    root_quotient(a).mul_spec(F::from_f64_bits_spec(HALF_BITS))
}

/// The approximate magnitude: [`approx_root`] of the squared length.
pub open spec fn length3<F: Scalar>(a: Triple<F>) -> F {
    approx_root(dot3(a, a))
}

pub open spec fn add3<F: Scalar>(a: Triple<F>, b: Triple<F>) -> Triple<F> {
    (a.0.add_spec(b.0), a.1.add_spec(b.1), a.2.add_spec(b.2))
}

pub open spec fn sub3<F: Scalar>(a: Triple<F>, b: Triple<F>) -> Triple<F> {
    (a.0.sub_spec(b.0), a.1.sub_spec(b.1), a.2.sub_spec(b.2))
}

pub open spec fn mul3<F: Scalar>(a: Triple<F>, b: Triple<F>) -> Triple<F> {
    (a.0.mul_spec(b.0), a.1.mul_spec(b.1), a.2.mul_spec(b.2))
}

pub open spec fn div3<F: Scalar>(a: Triple<F>, b: Triple<F>) -> Triple<F> {
    (a.0.div_spec(b.0), a.1.div_spec(b.1), a.2.div_spec(b.2))
}

/// Every component multiplied by `c`, with `c` on the right.
pub open spec fn scale3<F: Scalar>(a: Triple<F>, c: F) -> Triple<F> {
    (a.0.mul_spec(c), a.1.mul_spec(c), a.2.mul_spec(c))
}

/// Every component divided by `c`.
pub open spec fn shrink3<F: Scalar>(a: Triple<F>, c: F) -> Triple<F> {
    (a.0.div_spec(c), a.1.div_spec(c), a.2.div_spec(c))
}

/// Every component `c` replaced by `0 - c`.
pub open spec fn neg3<F: Scalar>(a: Triple<F>) -> Triple<F> {
    (zero::<F>().sub_spec(a.0), zero::<F>().sub_spec(a.1), zero::<F>().sub_spec(a.2))
}

/// The vector divided by its approximate magnitude.
pub open spec fn unit3<F: Scalar>(a: Triple<F>) -> Triple<F> {
    shrink3(a, length3(a))
}

/// The three components rendered in order, with one space between them.
pub open spec fn text3<F: Scalar>(a: Triple<F>) -> Seq<char> {
    a.0.text_spec() + seq![' '] + a.1.text_spec() + seq![' '] + a.2.text_spec()
}

/// A vector of three scalars.
#[derive(Clone, Copy, Debug)]
pub struct Vec3<F>([F; 3]);

/// A point in space is a vector from the origin.
pub type P3<F> = Vec3<F>;

impl<F> View for Vec3<F> {
    type V = Triple<F>;

    closed spec fn view(&self) -> Triple<F> {
        (self.0[0], self.0[1], self.0[2])
    }
}

impl<F> Vec3<F> {
    /// The vector whose components are those of `t`.
    pub closed spec fn of(t: Triple<F>) -> Self {
        Vec3([t.0, t.1, t.2])
    }

    /// `of` and the view are inverse to each other: a vector is its three
    /// components and nothing more.
    pub proof fn lemma_of_view(t: Triple<F>)
        ensures
            Self::of(t)@ == t,
    {
    }

    pub proof fn lemma_view_of(v: Self)
        ensures
            Self::of(v@) == v,
    {
        assert(Self::of(v@).0 =~= v.0);
    }
}

impl<F: Scalar> Vec3<F> {
    pub fn new(x: F, y: F, z: F) -> (r: Self)
        ensures
            r@ == (x, y, z),
    {
        Vec3([x, y, z])
    }

    pub fn x(&self) -> (r: F)
        ensures
            r == self@.0,
    {
        self.0[0]
    }

    pub fn y(&self) -> (r: F)
        ensures
            r == self@.1,
    {
        self.0[1]
    }

    pub fn z(&self) -> (r: F)
        ensures
            r == self@.2,
    {
        self.0[2]
    }

    /// The approximate magnitude of the vector.
    ///
    /// No square root is taken. The squared length `a` is shifted right by
    /// one place and added to the seed constant, and that guess is refined
    /// by a single Newton step. How close the result comes to the true
    /// magnitude depends on what the scalar's shift and sum do; no input is
    /// rejected, and a degenerate one (a zero vector, a value that is not
    /// finite) flows through the scalar's arithmetic unchecked.
    pub fn length(&self) -> (r: F)
        ensures
            r == length3(self@),
    {
        let a = self.length_squared();
        let x = F::from_f64_bits(SEED_BITS).add(a.shr(1));
        x.mul(x).add(a).div(x).mul(F::from_f64_bits(HALF_BITS))
    }

    /// The sum of the squared components.
    pub fn length_squared(&self) -> (r: F)
        ensures
            r == dot3(self@, self@),
    {
        self.x().mul(self.x()).add(self.y().mul(self.y())).add(self.z().mul(self.z()))
    }

    pub fn dot(&self, other: Self) -> (r: F)
        ensures
            r == dot3(self@, other@),
    {
        self.x().mul(other.x()).add(self.y().mul(other.y())).add(self.z().mul(other.z()))
    }

    pub fn cross(&self, other: Self) -> (r: Self)
        ensures
            r@ == cross3(self@, other@),
    {
        Self::new(
            self.y().mul(other.z()).sub(self.z().mul(other.y())),
            self.z().mul(other.x()).sub(self.x().mul(other.z())),
            self.x().mul(other.y()).sub(self.y().mul(other.x())),
        )
    }

    /// The vector divided by its approximate magnitude. Where that magnitude
    /// is zero the result is whatever the scalar's division by zero yields.
    pub fn unit_len(self) -> (r: Self)
        ensures
            r@ == unit3(self@),
    {
        self / self.length()
    }

    /// The three components in order, separated by single spaces.
    pub fn to_string(&self) -> (s: String)
        ensures
            s@ == text3(self@),
    {
        let mut s = self.0[0].to_text();
        let y = self.0[1].to_text();
        let z = self.0[2].to_text();
        proof {
            reveal_strlit(" ");
            assert(" "@ =~= seq![' ']);
        }
        s.append(" ");
        s.append(y.as_str());
        s.append(" ");
        s.append(z.as_str());
        s
    }
}

impl<F: Default> Default for Vec3<F> {
    /// The vector whose components are each the scalar's default.
    fn default() -> (r: Self)
        ensures
            call_ensures(F::default, (), r@.0),
            call_ensures(F::default, (), r@.1),
            call_ensures(F::default, (), r@.2),
    {
        Vec3([F::default(), F::default(), F::default()])
    }
}

impl<F: Scalar> Neg for Vec3<F> {
    type Output = Vec3<F>;

    /// Negation, component by component. The scalar offers no negation of
    /// its own, so each component `c` becomes `0 - c`, with the zero built
    /// from the literal 0.0.
    fn neg(self) -> (r: Self)
        ensures
            r@ == neg3(self@),
    {
        let zero = F::from_f64_bits(ZERO_BITS);
        let r = Self::new(zero.sub(self.x()), zero.sub(self.y()), zero.sub(self.z()));
        proof {
            Self::lemma_of_view(neg3(self@));
            Self::lemma_view_of(r);
        }
        r
    }
}

impl<F: Scalar> vstd::std_specs::ops::NegSpecImpl for Vec3<F> {
    open spec fn obeys_neg_spec() -> bool {
        true
    }

    open spec fn neg_req(self) -> bool {
        true
    }

    open spec fn neg_spec(self) -> Self {
        Self::of(neg3(self@))
    }
}

impl<F> Index<usize> for Vec3<F> {
    type Output = F;

    fn index(&self, index: usize) -> (r: &F)
        ensures
            *r == component(self@, index as int),
    {
        &self.0[index]
    }
}

impl<F> vstd::std_specs::core::IndexSpecImpl<usize> for Vec3<F> {
    /// Only the positions 0, 1 and 2 exist.
    open spec fn index_req(&self, index: &usize) -> bool {
        *index < 3
    }
}

impl<F: Scalar> AddAssign for Vec3<F> {
    fn add_assign(&mut self, rhs: Self)
        ensures
            final(self)@ == add3(old(self)@, rhs@),
    {
        self.0 = [self.x().add(rhs.x()), self.y().add(rhs.y()), self.z().add(rhs.z())];
    }
}

impl<F: Scalar> Add for Vec3<F> {
    type Output = Vec3<F>;

    fn add(self, rhs: Self) -> (r: Self)
        ensures
            r@ == add3(self@, rhs@),
    {
        let r = Self::new(self.x().add(rhs.x()), self.y().add(rhs.y()), self.z().add(rhs.z()));
        proof {
            Self::lemma_of_view(add3(self@, rhs@));
            Self::lemma_view_of(r);
        }
        r
    }
}

impl<F: Scalar> vstd::std_specs::ops::AddSpecImpl for Vec3<F> {
    open spec fn obeys_add_spec() -> bool {
        true
    }

    open spec fn add_req(self, rhs: Self) -> bool {
        true
    }

    open spec fn add_spec(self, rhs: Self) -> Self {
        Self::of(add3(self@, rhs@))
    }
}

impl<F: Scalar> Sub for Vec3<F> {
    type Output = Vec3<F>;

    fn sub(self, rhs: Self) -> (r: Self)
        ensures
            r@ == sub3(self@, rhs@),
    {
        let r = Self::new(self.x().sub(rhs.x()), self.y().sub(rhs.y()), self.z().sub(rhs.z()));
        proof {
            Self::lemma_of_view(sub3(self@, rhs@));
            Self::lemma_view_of(r);
        }
        r
    }
}

impl<F: Scalar> vstd::std_specs::ops::SubSpecImpl for Vec3<F> {
    open spec fn obeys_sub_spec() -> bool {
        true
    }

    open spec fn sub_req(self, rhs: Self) -> bool {
        true
    }

    open spec fn sub_spec(self, rhs: Self) -> Self {
        Self::of(sub3(self@, rhs@))
    }
}

impl<F: Scalar> MulAssign for Vec3<F> {
    fn mul_assign(&mut self, rhs: Self)
        ensures
            final(self)@ == mul3(old(self)@, rhs@),
    {
        self.0 = [self.x().mul(rhs.x()), self.y().mul(rhs.y()), self.z().mul(rhs.z())];
    }
}

impl<F: Scalar> Mul for Vec3<F> {
    type Output = Vec3<F>;

    fn mul(self, rhs: Self) -> (r: Self)
        ensures
            r@ == mul3(self@, rhs@),
    {
        let r = Self::new(self.x().mul(rhs.x()), self.y().mul(rhs.y()), self.z().mul(rhs.z()));
        proof {
            Self::lemma_of_view(mul3(self@, rhs@));
            Self::lemma_view_of(r);
        }
        r
    }
}

impl<F: Scalar> vstd::std_specs::ops::MulSpecImpl for Vec3<F> {
    open spec fn obeys_mul_spec() -> bool {
        true
    }

    open spec fn mul_req(self, rhs: Self) -> bool {
        true
    }

    open spec fn mul_spec(self, rhs: Self) -> Self {
        Self::of(mul3(self@, rhs@))
    }
}

impl<F: Scalar> Mul<F> for Vec3<F> {
    type Output = Vec3<F>;

    fn mul(self, c: F) -> (r: Self)
        ensures
            r@ == scale3(self@, c),
    {
        let r = Self::new(self.x().mul(c), self.y().mul(c), self.z().mul(c));
        proof {
            Self::lemma_of_view(scale3(self@, c));
            Self::lemma_view_of(r);
        }
        r
    }
}

impl<F: Scalar> vstd::std_specs::ops::MulSpecImpl<F> for Vec3<F> {
    open spec fn obeys_mul_spec() -> bool {
        true
    }

    open spec fn mul_req(self, c: F) -> bool {
        true
    }

    open spec fn mul_spec(self, c: F) -> Self {
        Self::of(scale3(self@, c))
    }
}

impl<F: Scalar> Div<F> for Vec3<F> {
    type Output = Vec3<F>;

    fn div(self, c: F) -> (r: Self)
        ensures
            r@ == shrink3(self@, c),
    {
        let r = Self::new(self.x().div(c), self.y().div(c), self.z().div(c));
        proof {
            Self::lemma_of_view(shrink3(self@, c));
            Self::lemma_view_of(r);
        }
        r
    }
}

impl<F: Scalar> vstd::std_specs::ops::DivSpecImpl<F> for Vec3<F> {
    open spec fn obeys_div_spec() -> bool {
        true
    }

    open spec fn div_req(self, c: F) -> bool {
        true
    }

    open spec fn div_spec(self, c: F) -> Self {
        Self::of(shrink3(self@, c))
    }
}

impl<F: Scalar> DivAssign for Vec3<F> {
    fn div_assign(&mut self, rhs: Self)
        ensures
            final(self)@ == div3(old(self)@, rhs@),
    {
        self.0 = [self.x().div(rhs.x()), self.y().div(rhs.y()), self.z().div(rhs.z())];
    }
}

} // verus!
