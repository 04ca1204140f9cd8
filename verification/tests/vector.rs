use geom3::scalar::Text;
use geom3::{Int64, Scalar, Vec3};

fn v(x: i64, y: i64, z: i64) -> Vec3<Int64> {
    Vec3::new(Int64(x), Int64(y), Int64(z))
}

fn parts(a: Vec3<Int64>) -> (i64, i64, i64) {
    (a.x().0, a.y().0, a.z().0)
}

/// A double-precision scalar whose shift halves the value once per place.
/// The functions that end in `_spec` exist for the verifier alone and never
/// run.
#[derive(Clone, Copy, Debug, PartialEq)]
struct Real(f64);

impl Scalar for Real {
    fn add_spec(self, _rhs: Self) -> Self {
        unreachable!()
    }

    fn sub_spec(self, _rhs: Self) -> Self {
        unreachable!()
    }

    fn mul_spec(self, _rhs: Self) -> Self {
        unreachable!()
    }

    fn div_spec(self, _rhs: Self) -> Self {
        unreachable!()
    }

    fn shr_spec(self, _n: i32) -> Self {
        unreachable!()
    }

    fn from_f64_bits_spec(_bits: u64) -> Self {
        unreachable!()
    }

    fn text_spec(self) -> Text {
        unreachable!()
    }

    fn add(self, rhs: Self) -> Self {
        Real(self.0 + rhs.0)
    }

    fn sub(self, rhs: Self) -> Self {
        Real(self.0 - rhs.0)
    }

    fn mul(self, rhs: Self) -> Self {
        Real(self.0 * rhs.0)
    }

    fn div(self, rhs: Self) -> Self {
        Real(self.0 / rhs.0)
    }

    fn shr(self, n: i32) -> Self {
        Real(self.0 / 2f64.powi(n))
    }

    fn from_f64_bits(bits: u64) -> Self {
        Real(f64::from_bits(bits))
    }

    fn to_text(&self) -> String {
        format!("{}", self.0)
    }
}

fn r(x: f64, y: f64, z: f64) -> Vec3<Real> {
    Vec3::new(Real(x), Real(y), Real(z))
}

fn real_parts(a: Vec3<Real>) -> (f64, f64, f64) {
    (a.x().0, a.y().0, a.z().0)
}

#[test]
fn new_keeps_the_components_in_order() {
    assert_eq!(parts(v(1, 2, 3)), (1, 2, 3));
    assert_eq!(parts(v(-7, 0, i64::MAX)), (-7, 0, i64::MAX));
}

#[test]
fn new_accepts_values_that_are_not_finite() {
    let a = r(f64::INFINITY, f64::NEG_INFINITY, f64::NAN);
    assert_eq!(a.x().0, f64::INFINITY);
    assert_eq!(a.y().0, f64::NEG_INFINITY);
    assert!(a.z().0.is_nan());
}

#[test]
fn index_reads_each_position() {
    let a = v(1, 2, 3);
    assert_eq!(a[0], Int64(1));
    assert_eq!(a[1], Int64(2));
    assert_eq!(a[2], Int64(3));
}

#[test]
fn default_is_the_zero_vector() {
    let a: Vec3<Int64> = Default::default();
    assert_eq!(parts(a), (0, 0, 0));
}

#[test]
fn dot_sums_the_pairwise_products() {
    assert_eq!(v(1, 2, 3).dot(v(4, -5, 6)), Int64(4 - 10 + 18));
    assert_eq!(r(1.5, 2.0, -3.0).dot(r(2.0, 0.25, 4.0)), Real(3.0 + 0.5 - 12.0));
}

#[test]
fn dot_does_not_depend_on_the_order() {
    let a = v(3, -4, 12);
    let b = v(-9, 7, 5);
    assert_eq!(a.dot(b), b.dot(a));
    let c = r(0.1, 0.2, 0.3);
    let d = r(-7.5, 1e10, 3.25);
    assert_eq!(c.dot(d), d.dot(c));
}

#[test]
fn dot_wraps_on_overflow() {
    let a = v(i64::MAX, 1, 0);
    let b = v(2, 2, 0);
    assert_eq!(a.dot(b), Int64(i64::MAX.wrapping_mul(2).wrapping_add(2)));
    assert_eq!(a.dot(b), b.dot(a));
}

#[test]
fn cross_is_right_handed() {
    assert_eq!(parts(v(1, 0, 0).cross(v(0, 1, 0))), (0, 0, 1));
    assert_eq!(parts(v(0, 1, 0).cross(v(0, 0, 1))), (1, 0, 0));
    assert_eq!(parts(v(0, 0, 1).cross(v(1, 0, 0))), (0, 1, 0));
    assert_eq!(parts(v(1, 2, 3).cross(v(4, 5, 6))), (-3, 6, -3));
}

#[test]
fn cross_is_orthogonal_to_both_operands() {
    let a = v(1, 2, 3);
    let b = v(-4, 5, 6);
    let c = a.cross(b);
    assert_eq!(c.dot(a), Int64(0));
    assert_eq!(c.dot(b), Int64(0));
    let big = v(i64::MAX, i64::MIN, 0x1234_5678_9abc_def0);
    let d = big.cross(b);
    assert_eq!(d.dot(big), Int64(0));
    assert_eq!(d.dot(b), Int64(0));
}

#[test]
fn cross_of_reals_is_orthogonal_within_tolerance() {
    let a = r(0.1, 0.7, -1.3);
    let b = r(2.5, -0.3, 0.9);
    let c = a.cross(b);
    assert!(c.dot(a).0.abs() < 1e-12);
    assert!(c.dot(b).0.abs() < 1e-12);
}

#[test]
fn cross_with_itself_is_zero() {
    let a = v(7, -8, 9);
    assert_eq!(parts(a.cross(a)), (0, 0, 0));
    let b = r(0.1, 1e20, -3.5);
    assert_eq!(real_parts(b.cross(b)), (0.0, 0.0, 0.0));
}

#[test]
fn cross_changes_sign_when_the_operands_swap() {
    let a = v(1, 2, 3);
    let b = v(-4, 5, 6);
    assert_eq!(parts(a.cross(b)), parts(-(b.cross(a))));
}

#[test]
fn cross_of_parallel_vectors_is_zero() {
    let a = v(2, -3, 5);
    assert_eq!(parts(a.cross(a * Int64(-4))), (0, 0, 0));
    assert_eq!(parts(a.cross(v(0, 0, 0))), (0, 0, 0));
}

#[test]
fn add_then_sub_gives_back_the_vector() {
    let a = v(i64::MAX, -5, 17);
    let b = v(9, i64::MIN, 4);
    assert_eq!(parts((a + b) - b), parts(a));
    let c = r(1.0, 2.0, 3.0);
    let d = r(0.5, 0.25, 8.0);
    assert_eq!(real_parts((c + d) - d), (1.0, 2.0, 3.0));
}

#[test]
fn add_then_sub_of_reals_is_within_tolerance() {
    let c = r(0.1, 0.2, 0.3);
    let d = r(1e6, -1e6, 0.7);
    let (x, y, z) = real_parts((c + d) - d);
    assert!((x - 0.1).abs() < 1e-9);
    assert!((y - 0.2).abs() < 1e-9);
    assert!((z - 0.3).abs() < 1e-9);
}

#[test]
fn operators_work_component_by_component() {
    let a = v(6, -8, 10);
    let b = v(3, 2, -5);
    assert_eq!(parts(a + b), (9, -6, 5));
    assert_eq!(parts(a - b), (3, -10, 15));
    assert_eq!(parts(a * b), (18, -16, -50));
    assert_eq!(parts(a * Int64(3)), (18, -24, 30));
    assert_eq!(parts(a / Int64(4)), (1, -2, 2));
    assert_eq!(parts(-a), (-6, 8, -10));
}

#[test]
fn negation_really_negates() {
    assert_eq!(real_parts(-r(1.5, -2.0, 0.0)), (-1.5, 2.0, 0.0));
    assert_eq!(parts(-v(i64::MIN, 0, 1)), (i64::MIN, 0, -1));
}

#[test]
fn compound_assignment_overwrites_every_component() {
    let mut a = v(6, -8, 10);
    a += v(1, 1, 1);
    assert_eq!(parts(a), (7, -7, 11));
    a *= v(2, -1, 0);
    assert_eq!(parts(a), (14, 7, 0));
    a /= v(4, -2, 3);
    assert_eq!(parts(a), (3, -3, 0));
}

#[test]
fn division_by_zero_does_not_fail() {
    assert_eq!(parts(v(1, -2, 3) / Int64(0)), (0, 0, 0));
    let a = r(1.0, -2.0, 0.0) / Real(0.0);
    assert_eq!(a.x().0, f64::INFINITY);
    assert_eq!(a.y().0, f64::NEG_INFINITY);
    assert!(a.z().0.is_nan());
}

#[test]
fn length_squared_is_exact() {
    assert_eq!(v(3, 4, 12).length_squared(), Int64(169));
    assert_eq!(r(3.0, 4.0, 0.0).length_squared(), Real(25.0));
    assert_eq!(r(0.5, 0.5, 0.5).length_squared(), Real(0.75));
}

#[test]
fn length_takes_one_newton_step_from_the_seed() {
    // The guess is the seed plus half the squared length.
    let a = r(3.0, 4.0, 0.0);
    assert_eq!(a.length(), Real(266248132.75000003));
    let guess: f64 = 532496253.0 + 12.5;
    assert_eq!(a.length(), Real(((guess * guess + 25.0) / guess) * 0.5));
}

#[test]
fn length_is_no_square_root() {
    let a = r(3.0, 4.0, 0.0);
    assert_ne!(a.length(), Real(5.0));
    // With a guess this far off, one step only halves the guess.
    assert!((a.length().0 - 532496265.5 / 2.0).abs() < 1e-6);
}

#[test]
fn length_of_the_zero_vector_is_half_the_seed() {
    assert_eq!(r(0.0, 0.0, 0.0).length(), Real(532496253.0 / 2.0));
}

#[test]
fn length_lets_values_that_are_not_finite_through() {
    assert!(r(f64::INFINITY, 0.0, 0.0).length().0.is_nan());
    assert!(r(f64::NAN, 0.0, 0.0).length().0.is_nan());
}

#[test]
fn length_over_the_integers_is_zero() {
    // One half is rounded toward zero, and the last step multiplies by it.
    assert_eq!(v(3, 4, 0).length(), Int64(0));
    assert_eq!(v(i64::MAX, -1, 5).length(), Int64(0));
}

#[test]
fn unit_len_divides_by_the_length() {
    let a = r(3.0, 4.0, 0.0);
    let l = 266248132.75000003;
    assert_eq!(real_parts(a.unit_len()), (3.0 / l, 4.0 / l, 0.0 / l));
    assert_eq!(a.unit_len().length(), Real(266248126.5));
}

#[test]
fn unit_len_over_the_integers_divides_by_zero() {
    assert_eq!(parts(v(3, 4, 0).unit_len()), (0, 0, 0));
}

#[test]
fn to_string_separates_the_components_by_spaces() {
    assert_eq!(v(1, -2, 30).to_string(), "1 -2 30");
    assert_eq!(v(0, i64::MIN, i64::MAX).to_string(), "0 -9223372036854775808 9223372036854775807");
    assert_eq!(r(0.5, -1.25, 3.0).to_string(), "0.5 -1.25 3");
}
