//! Scalars whose arithmetic is exact, and the vector identities that hold
//! over them.
//!
//! The identities of vector algebra rest on the laws of a commutative ring.
//! A scalar that rounds does not obey them, so they are asked for by a trait
//! of their own, and every identity below is proved from that trait alone.

use crate::scalar::Scalar;
use crate::vec3::{add3, cross3, dot3, neg3, scale3, sub3, zero, zero3, Vec3};
use vstd::prelude::*;

verus! {

/// A scalar whose sums, differences and products obey the laws of a
/// commutative ring, with the scalar built from the literal 0.0 as its zero.
pub trait ExactScalar: Scalar {
    proof fn lemma_add_commutative(a: Self, b: Self)
        ensures
            a.add_spec(b) == b.add_spec(a),
    ;

    proof fn lemma_add_associative(a: Self, b: Self, c: Self)
        ensures
            a.add_spec(b).add_spec(c) == a.add_spec(b.add_spec(c)),
    ;

    proof fn lemma_add_zero(a: Self)
        ensures
            a.add_spec(zero::<Self>()) == a,
    ;

    /// Subtraction undoes addition.
    proof fn lemma_add_then_sub(a: Self, b: Self)
        ensures
            a.add_spec(b).sub_spec(b) == a,
    ;

    /// Addition undoes subtraction.
    proof fn lemma_sub_then_add(a: Self, b: Self)
        ensures
            a.sub_spec(b).add_spec(b) == a,
    ;

    proof fn lemma_mul_commutative(a: Self, b: Self)
        ensures
            a.mul_spec(b) == b.mul_spec(a),
    ;

    proof fn lemma_mul_associative(a: Self, b: Self, c: Self)
        ensures
            a.mul_spec(b).mul_spec(c) == a.mul_spec(b.mul_spec(c)),
    ;

    /// Multiplication distributes over subtraction.
    proof fn lemma_mul_distributes(a: Self, b: Self, c: Self)
        ensures
            a.sub_spec(b).mul_spec(c) == a.mul_spec(c).sub_spec(b.mul_spec(c)),
    ;
}

/// A scalar minus itself is zero.
pub proof fn lemma_sub_self<F: ExactScalar>(a: F)
    ensures
        a.sub_spec(a) == zero::<F>(),
{
    let z = zero::<F>();
    F::lemma_add_zero(a);
    F::lemma_add_commutative(a, z);
    F::lemma_add_then_sub(z, a);
}

/// Only zero leaves a scalar unchanged when added to it.
pub proof fn lemma_add_fixes_only_zero<F: ExactScalar>(t: F, b: F)
    requires
        t.add_spec(b) == b,
    ensures
        t == zero::<F>(),
{
    F::lemma_add_then_sub(t, b);
    lemma_sub_self(b);
}

/// Three differences that go once round a cycle of three scalars sum to
/// zero.
pub proof fn lemma_cycle_sums_to_zero<F: ExactScalar>(a: F, b: F, c: F)
    ensures
        a.sub_spec(b).add_spec(c.sub_spec(a)).add_spec(b.sub_spec(c)) == zero::<F>(),
{
    let u = a.sub_spec(b);
    let v = c.sub_spec(a);
    let w = b.sub_spec(c);
    // Adding `c` folds each difference back into the scalar it was taken
    // from: ((u + v) + w) + c == (u + v) + b == v + a == c.
    F::lemma_sub_then_add(b, c);
    F::lemma_add_associative(u.add_spec(v), w, c);
    assert(u.add_spec(v).add_spec(w).add_spec(c) == u.add_spec(v).add_spec(b));
    F::lemma_add_commutative(u, v);
    F::lemma_add_associative(v, u, b);
    F::lemma_sub_then_add(a, b);
    F::lemma_sub_then_add(c, a);
    assert(u.add_spec(v).add_spec(b) == c);
    lemma_add_fixes_only_zero(u.add_spec(v).add_spec(w), c);
}

/// Three differences that go once round a cycle of three scalars sum to
/// zero, taken in the other direction.
pub proof fn lemma_chain_sums_to_zero<F: ExactScalar>(a: F, b: F, c: F)
    ensures
        a.sub_spec(b).add_spec(b.sub_spec(c)).add_spec(c.sub_spec(a)) == zero::<F>(),
{
    let u = a.sub_spec(b);
    let v = b.sub_spec(c);
    let w = c.sub_spec(a);
    F::lemma_sub_then_add(c, a);
    F::lemma_add_associative(u.add_spec(v), w, a);
    F::lemma_add_associative(u, v, c);
    F::lemma_sub_then_add(b, c);
    F::lemma_sub_then_add(a, b);
    assert(u.add_spec(v).add_spec(c) == a);
    lemma_add_fixes_only_zero(u.add_spec(v).add_spec(w), a);
}

/// Swapping the operands of a difference negates it.
pub proof fn lemma_sub_swap<F: ExactScalar>(a: F, b: F)
    ensures
        a.sub_spec(b) == zero::<F>().sub_spec(b.sub_spec(a)),
{
    let d = b.sub_spec(a);
    lemma_chain_sums_to_zero(a, b, a);
    lemma_sub_self(a);
    F::lemma_add_zero(a.sub_spec(b).add_spec(d));
    F::lemma_add_then_sub(a.sub_spec(b), d);
}

/// Zero times any scalar is zero, on either side.
pub proof fn lemma_mul_zero<F: ExactScalar>(a: F)
    ensures
        zero::<F>().mul_spec(a) == zero::<F>(),
        a.mul_spec(zero::<F>()) == zero::<F>(),
{
    let z = zero::<F>();
    lemma_sub_self(z);
    F::lemma_mul_distributes(z, z, a);
    lemma_sub_self(z.mul_spec(a));
    F::lemma_mul_commutative(a, z);
}

/// The inner product does not depend on the order of its operands.
pub proof fn lemma_dot_commutative<F: ExactScalar>(v: Vec3<F>, w: Vec3<F>)
    ensures
        dot3(v@, w@) == dot3(w@, v@),
{
    F::lemma_mul_commutative(v@.0, w@.0);
    F::lemma_mul_commutative(v@.1, w@.1);
    F::lemma_mul_commutative(v@.2, w@.2);
}

/// The product of three scalars does not depend on their order, as far as
/// these two arrangements go: `(a * b) * c == (c * b) * a`.
proof fn lemma_mul_reverse<F: ExactScalar>(a: F, b: F, c: F)
    ensures
        a.mul_spec(b).mul_spec(c) == c.mul_spec(b).mul_spec(a),
{
    F::lemma_mul_commutative(a.mul_spec(b), c);
    F::lemma_mul_commutative(a, b);
    F::lemma_mul_associative(c, b, a);
}

/// `(a * b) * c == (a * c) * b`.
proof fn lemma_mul_swap<F: ExactScalar>(a: F, b: F, c: F)
    ensures
        a.mul_spec(b).mul_spec(c) == a.mul_spec(c).mul_spec(b),
{
    F::lemma_mul_associative(a, b, c);
    F::lemma_mul_commutative(b, c);
    F::lemma_mul_associative(a, c, b);
}

/// The cross product of two vectors is orthogonal to both of them.
pub proof fn lemma_cross_orthogonal<F: ExactScalar>(v: Vec3<F>, w: Vec3<F>)
    ensures
        dot3(cross3(v@, w@), v@) == zero::<F>(),
        dot3(cross3(v@, w@), w@) == zero::<F>(),
{
    let (x1, y1, z1) = v@;
    let (x2, y2, z2) = w@;
    F::lemma_mul_distributes(y1.mul_spec(z2), z1.mul_spec(y2), x1);
    F::lemma_mul_distributes(z1.mul_spec(x2), x1.mul_spec(z2), y1);
    F::lemma_mul_distributes(x1.mul_spec(y2), y1.mul_spec(x2), z1);
    let a = y1.mul_spec(z2).mul_spec(x1);
    let b = z1.mul_spec(y2).mul_spec(x1);
    let c = z1.mul_spec(x2).mul_spec(y1);
    lemma_mul_reverse(x1, z2, y1);
    lemma_mul_reverse(x1, y2, z1);
    lemma_mul_reverse(y1, x2, z1);
    assert(x1.mul_spec(z2).mul_spec(y1) == a);
    assert(x1.mul_spec(y2).mul_spec(z1) == b);
    assert(y1.mul_spec(x2).mul_spec(z1) == c);
    lemma_cycle_sums_to_zero(a, b, c);

    F::lemma_mul_distributes(y1.mul_spec(z2), z1.mul_spec(y2), x2);
    F::lemma_mul_distributes(z1.mul_spec(x2), x1.mul_spec(z2), y2);
    F::lemma_mul_distributes(x1.mul_spec(y2), y1.mul_spec(x2), z2);
    let d = y1.mul_spec(z2).mul_spec(x2);
    let e = z1.mul_spec(y2).mul_spec(x2);
    let f = x1.mul_spec(z2).mul_spec(y2);
    lemma_mul_swap(z1, x2, y2);
    lemma_mul_swap(x1, y2, z2);
    lemma_mul_swap(y1, x2, z2);
    lemma_chain_sums_to_zero(d, e, f);
}

/// The cross product of a vector with itself is the zero vector.
pub proof fn lemma_cross_self_zero<F: ExactScalar>(v: Vec3<F>)
    ensures
        cross3(v@, v@) == zero3::<F>(),
{
    F::lemma_mul_commutative(v@.1, v@.2);
    F::lemma_mul_commutative(v@.2, v@.0);
    F::lemma_mul_commutative(v@.0, v@.1);
    lemma_sub_self(v@.1.mul_spec(v@.2));
    lemma_sub_self(v@.2.mul_spec(v@.0));
    lemma_sub_self(v@.0.mul_spec(v@.1));
}

/// Swapping the operands of the cross product negates it.
pub proof fn lemma_cross_anticommutative<F: ExactScalar>(v: Vec3<F>, w: Vec3<F>)
    ensures
        cross3(v@, w@) == neg3(cross3(w@, v@)),
{
    let (x1, y1, z1) = v@;
    let (x2, y2, z2) = w@;
    F::lemma_mul_commutative(y1, z2);
    F::lemma_mul_commutative(z1, y2);
    F::lemma_mul_commutative(z1, x2);
    F::lemma_mul_commutative(x1, z2);
    F::lemma_mul_commutative(x1, y2);
    F::lemma_mul_commutative(y1, x2);
    lemma_sub_swap(y1.mul_spec(z2), z1.mul_spec(y2));
    lemma_sub_swap(z1.mul_spec(x2), x1.mul_spec(z2));
    lemma_sub_swap(x1.mul_spec(y2), y1.mul_spec(x2));
}

/// The cross product with the zero vector is the zero vector.
pub proof fn lemma_cross_with_zero<F: ExactScalar>(v: Vec3<F>)
    ensures
        cross3(v@, zero3::<F>()) == zero3::<F>(),
        cross3(zero3::<F>(), v@) == zero3::<F>(),
{
    lemma_mul_zero(v@.0);
    lemma_mul_zero(v@.1);
    lemma_mul_zero(v@.2);
    lemma_sub_self(zero::<F>());
}

/// The cross product of a vector with a multiple of itself is the zero
/// vector.
pub proof fn lemma_cross_parallel<F: ExactScalar>(v: Vec3<F>, c: F)
    ensures
        cross3(v@, scale3(v@, c)) == zero3::<F>(),
{
    let (x, y, z) = v@;
    F::lemma_mul_associative(y, z, c);
    F::lemma_mul_associative(z, y, c);
    F::lemma_mul_associative(z, x, c);
    F::lemma_mul_associative(x, z, c);
    F::lemma_mul_associative(x, y, c);
    F::lemma_mul_associative(y, x, c);
    F::lemma_mul_commutative(y, z);
    F::lemma_mul_commutative(z, x);
    F::lemma_mul_commutative(x, y);
    lemma_sub_self(y.mul_spec(z).mul_spec(c));
    lemma_sub_self(z.mul_spec(x).mul_spec(c));
    lemma_sub_self(x.mul_spec(y).mul_spec(c));
}

/// A vector and its negation sum to the zero vector.
pub proof fn lemma_neg_cancels<F: ExactScalar>(v: Vec3<F>)
    ensures
        add3(neg3(v@), v@) == zero3::<F>(),
{
    F::lemma_sub_then_add(zero::<F>(), v@.0);
    F::lemma_sub_then_add(zero::<F>(), v@.1);
    F::lemma_sub_then_add(zero::<F>(), v@.2);
}

/// Adding a vector and taking it away again gives back the first vector.
pub proof fn lemma_add_sub_round_trip<F: ExactScalar>(v: Vec3<F>, w: Vec3<F>)
    ensures
        sub3(add3(v@, w@), w@) == v@,
{
    F::lemma_add_then_sub(v@.0, w@.0);
    F::lemma_add_then_sub(v@.1, w@.1);
    F::lemma_add_then_sub(v@.2, w@.2);
}

} // verus!
