use pathtracer::fx::{
    fx_abs, fx_add, fx_cos, fx_div, fx_from_int, fx_max, fx_min, fx_mul, fx_neg, fx_pow, fx_root,
    fx_sin, fx_sqrt, fx_sub, Fx, FX_HALF_PI, FX_MAX, FX_ONE, FX_PI, FX_TWO_PI,
};

fn fx(raw: i64) -> Fx {
    Fx { raw }
}

#[test]
fn product_is_exact() {
    // 3.5 * 2.25 == 7.875
    assert_eq!(fx_mul(fx(229376), fx(147456)).raw, 516096);
    assert_eq!(fx_mul(fx(-229376), fx(147456)).raw, -516096);
    assert_eq!(fx_mul(fx(-229376), fx(-147456)).raw, 516096);
    assert_eq!(fx_mul(fx(0), fx(147456)).raw, 0);
}

#[test]
fn quotient_truncates_toward_zero() {
    assert_eq!(fx_div(fx(FX_ONE), fx(3 * FX_ONE)).raw, 21845);
    assert_eq!(fx_div(fx(-FX_ONE), fx(3 * FX_ONE)).raw, -21845);
    // division by zero saturates instead of failing
    assert_eq!(fx_div(fx(FX_ONE), fx(0)).raw, FX_MAX);
    assert_eq!(fx_div(fx(-FX_ONE), fx(0)).raw, -FX_MAX);
    assert_eq!(fx_div(fx(0), fx(0)).raw, 0);
}

#[test]
fn sum_and_difference_saturate() {
    assert_eq!(fx_add(fx(FX_ONE), fx(FX_ONE)).raw, 2 * FX_ONE);
    assert_eq!(fx_add(fx(FX_MAX), fx(FX_MAX)).raw, FX_MAX);
    assert_eq!(fx_sub(fx(-FX_MAX), fx(FX_MAX)).raw, -FX_MAX);
    assert_eq!(fx_neg(fx(-FX_MAX)).raw, FX_MAX);
    assert_eq!(fx_abs(fx(-196608)).raw, 196608);
    assert_eq!(fx_min(fx(3), fx(-5)).raw, -5);
    assert_eq!(fx_max(fx(3), fx(-5)).raw, 3);
}

#[test]
fn square_root_values() {
    // sqrt(2) in 16.16 fixed point, rounded down
    assert_eq!(fx_sqrt(fx(2 * FX_ONE)).raw, 92681);
    assert_eq!(fx_sqrt(fx(4 * FX_ONE)).raw, 2 * FX_ONE);
    assert_eq!(fx_sqrt(fx(FX_ONE)).raw, FX_ONE);
    assert_eq!(fx_sqrt(fx(0)).raw, 0);
    assert_eq!(fx_sqrt(fx(-FX_ONE)).raw, 0);
}

#[test]
fn powers_and_roots() {
    assert_eq!(fx_pow(fx(FX_ONE / 2), 3).raw, 8192);  // 0.5^3 == 0.125
    assert_eq!(fx_pow(fx(12345), 0).raw, FX_ONE);
    assert_eq!(fx_root(fx(FX_ONE / 4), 2).raw, FX_ONE / 2);  // sqrt(0.25) == 0.5
    assert_eq!(fx_root(fx(12345), 1).raw, 12345);  // first root is the identity
    assert_eq!(fx_root(fx(FX_ONE), 7).raw, FX_ONE);
}

#[test]
fn trig_formula_values() {
    assert_eq!(fx_sin(fx(0)).raw, 0);
    assert_eq!(fx_sin(fx(FX_HALF_PI)).raw, 65535);
    assert_eq!(fx_sin(fx(FX_PI)).raw, 0);
    assert_eq!(fx_cos(fx(0)).raw, 65535);
    assert_eq!(fx_cos(fx(FX_PI)).raw, -65535);
    assert_eq!(fx_sin(fx(FX_PI + FX_HALF_PI)).raw, -65535);
    assert_eq!(fx_cos(fx(FX_TWO_PI)).raw, 65535);
}

#[test]
fn integer_conversion() {
    assert_eq!(fx_from_int(3).raw, 3 * FX_ONE);
    assert_eq!(fx_from_int(-7).raw, -7 * FX_ONE);
    assert_eq!(fx_from_int(0).raw, 0);
}
