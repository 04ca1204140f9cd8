use geom3::binary64::truncate;
use geom3::decimal::render;
use geom3::vec3::{HALF_BITS, SEED_BITS, ZERO_BITS};
use geom3::{Int64, Scalar};

fn integers() -> Vec<i64> {
    vec![
        0,
        1,
        -1,
        2,
        -2,
        9,
        10,
        -10,
        99,
        100,
        12345,
        -67890,
        0x1fbd_3f7d,
        i64::MAX,
        i64::MIN,
        i64::MAX - 1,
        i64::MIN + 1,
        0x1234_5678_9abc_def0,
        -0x1234_5678_9abc_def0,
        1 << 32,
        -(1 << 32),
    ]
}

#[test]
fn sums_differences_and_products_wrap() {
    for &a in integers().iter() {
        for &b in integers().iter() {
            assert_eq!(Int64(a).add(Int64(b)), Int64(a.wrapping_add(b)));
            assert_eq!(Int64(a).sub(Int64(b)), Int64(a.wrapping_sub(b)));
            assert_eq!(Int64(a).mul(Int64(b)), Int64(a.wrapping_mul(b)));
        }
    }
    assert_eq!(Int64(i64::MAX).add(Int64(1)), Int64(i64::MIN));
    assert_eq!(Int64(i64::MIN).sub(Int64(1)), Int64(i64::MAX));
    assert_eq!(Int64(1 << 62).mul(Int64(4)), Int64(0));
}

#[test]
fn quotients_round_toward_zero() {
    assert_eq!(Int64(7).div(Int64(2)), Int64(3));
    assert_eq!(Int64(-7).div(Int64(2)), Int64(-3));
    assert_eq!(Int64(7).div(Int64(-2)), Int64(-3));
    assert_eq!(Int64(-7).div(Int64(-2)), Int64(3));
    for &a in integers().iter() {
        for &b in integers().iter() {
            if b != 0 {
                assert_eq!(Int64(a).div(Int64(b)), Int64(a.wrapping_div(b)));
            }
        }
    }
}

#[test]
fn a_zero_divisor_yields_zero() {
    for &a in integers().iter() {
        assert_eq!(Int64(a).div(Int64(0)), Int64(0));
    }
}

#[test]
fn the_least_integer_divided_by_minus_one_wraps() {
    assert_eq!(Int64(i64::MIN).div(Int64(-1)), Int64(i64::MIN));
}

#[test]
fn a_shift_halves_and_rounds_down() {
    assert_eq!(Int64(25).shr(1), Int64(12));
    assert_eq!(Int64(-25).shr(1), Int64(-13));
    assert_eq!(Int64(-1).shr(63), Int64(-1));
    assert_eq!(Int64(i64::MIN).shr(63), Int64(-1));
    assert_eq!(Int64(i64::MAX).shr(62), Int64(1));
    assert_eq!(Int64(40).shr(0), Int64(40));
}

#[test]
fn a_shift_counts_its_places_modulo_64() {
    for &a in integers().iter() {
        for &n in [0, 1, 5, 63, 64, 65, 127, 128, -1, -63, -64, -65, i32::MAX, i32::MIN].iter() {
            assert_eq!(Int64(a).shr(n), Int64(a.wrapping_shr(n as u32)), "{} >> {}", a, n);
        }
    }
    assert_eq!(Int64(256).shr(64), Int64(256));
    assert_eq!(Int64(256).shr(-63), Int64(128));
}

#[test]
fn the_literals_of_the_vector_algebra_as_integers() {
    assert_eq!(Int64::from_f64_bits(ZERO_BITS), Int64(0));
    assert_eq!(Int64::from_f64_bits(SEED_BITS), Int64(0x1fbd_3f7d));
    assert_eq!(Int64::from_f64_bits(HALF_BITS), Int64(0));
    assert_eq!(f64::from_bits(ZERO_BITS), 0.0);
    assert_eq!(f64::from_bits(SEED_BITS), 532496253.0);
    assert_eq!(f64::from_bits(HALF_BITS), 0.5);
}

#[test]
fn truncate_rounds_toward_zero() {
    assert_eq!(truncate(2.75f64.to_bits()), 2);
    assert_eq!(truncate((-2.75f64).to_bits()), -2);
    assert_eq!(truncate(0.999f64.to_bits()), 0);
    assert_eq!(truncate((-0.999f64).to_bits()), 0);
    assert_eq!(truncate(1.0f64.to_bits()), 1);
    assert_eq!(truncate(4503599627370496.5f64.to_bits()), 4503599627370496);
    assert_eq!(truncate(9007199254740993.0f64.to_bits()), 9007199254740992);
}

#[test]
fn truncate_holds_to_the_range() {
    assert_eq!(truncate(1e300f64.to_bits()), i64::MAX);
    assert_eq!(truncate((-1e300f64).to_bits()), i64::MIN);
    assert_eq!(truncate(9223372036854775808.0f64.to_bits()), i64::MAX);
    assert_eq!(truncate((-9223372036854775808.0f64).to_bits()), i64::MIN);
    assert_eq!(truncate(9223372036854774784.0f64.to_bits()), 9223372036854774784);
    assert_eq!(truncate(f64::INFINITY.to_bits()), i64::MAX);
    assert_eq!(truncate(f64::NEG_INFINITY.to_bits()), i64::MIN);
}

#[test]
fn truncate_sends_a_nan_to_zero() {
    assert_eq!(truncate(f64::NAN.to_bits()), 0);
    assert_eq!(truncate(0x7ff0_0000_0000_0001), 0);
    assert_eq!(truncate(0xffff_ffff_ffff_ffff), 0);
}

#[test]
fn truncate_agrees_with_the_cast() {
    let doubles: Vec<f64> = vec![
        0.0,
        -0.0,
        5e-324,
        f64::MIN_POSITIVE,
        0.5,
        -0.5,
        1.5,
        3.0,
        -3.0,
        1e10,
        -1e10,
        123456789.987654321,
        4503599627370495.5,
        9007199254740991.0,
        1e18,
        9.2e18,
        9.3e18,
        -9.3e18,
        1e19,
        f64::MAX,
        f64::MIN,
        f64::INFINITY,
        f64::NEG_INFINITY,
        f64::NAN,
    ];
    for &d in doubles.iter() {
        assert_eq!(truncate(d.to_bits()), d as i64, "{}", d);
        assert_eq!(Int64::from_f64_bits(d.to_bits()), Int64(d as i64), "{}", d);
    }
}

#[test]
fn render_writes_decimal() {
    assert_eq!(render(0), "0");
    assert_eq!(render(7), "7");
    assert_eq!(render(10), "10");
    assert_eq!(render(-1), "-1");
    assert_eq!(render(1234567890), "1234567890");
    assert_eq!(render(i64::MAX), "9223372036854775807");
    assert_eq!(render(i64::MIN), "-9223372036854775808");
}

#[test]
fn render_agrees_with_the_standard_formatting() {
    for &a in integers().iter() {
        assert_eq!(render(a), format!("{}", a));
        assert_eq!(Int64(a).to_text(), format!("{}", a));
    }
}

#[test]
fn the_default_integer_is_zero() {
    assert_eq!(Int64::default(), Int64(0));
}
