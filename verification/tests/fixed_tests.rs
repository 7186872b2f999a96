use ro_thermal::fixed::{
    fixed_add, fixed_blend, fixed_div, fixed_lerp, fixed_mul, fixed_muldiv, fixed_recip,
    fixed_sub, SCALE, VAL_MAX,
};

#[test]
fn basic_arithmetic() {
    assert_eq!(SCALE, 1_000);
    // 2.0 * 3.0 = 6.0
    assert_eq!(fixed_mul(2_000, 3_000), 6_000);
    // 3.0 / 2.0 = 1.5
    assert_eq!(fixed_div(3_000, 2_000), 1_500);
    // 1 / 2.0 = 0.5
    assert_eq!(fixed_recip(2_000), 500);
    assert_eq!(fixed_add(1_500, 2_500), 4_000);
    assert_eq!(fixed_sub(1_500, 2_500), 0);
    assert_eq!(fixed_sub(2_500, 1_500), 1_000);
    // 6.0 * 2.0 / 3.0 = 4.0
    assert_eq!(fixed_muldiv(6_000, 2_000, 3_000), 4_000);
}

#[test]
fn division_by_zero_yields_zero() {
    assert_eq!(fixed_div(5_000, 0), 0);
    assert_eq!(fixed_muldiv(5_000, 5_000, 0), 0);
    assert_eq!(fixed_recip(0), 0);
}

#[test]
fn saturation_at_val_max() {
    assert_eq!(fixed_mul(VAL_MAX, VAL_MAX), VAL_MAX);
    assert_eq!(fixed_add(VAL_MAX, 1), VAL_MAX);
    assert_eq!(fixed_div(VAL_MAX, 1), VAL_MAX);
}

#[test]
fn interpolation_values() {
    // endpoints are exact
    assert_eq!(fixed_lerp(1_000, 500, 3_000, 900, 1_000), 500);
    assert_eq!(fixed_lerp(1_000, 500, 3_000, 900, 3_000), 900);
    // halfway
    assert_eq!(fixed_lerp(1_000, 500, 3_000, 900, 2_000), 700);
    // outside the interval the nearer endpoint is held
    assert_eq!(fixed_lerp(1_000, 500, 3_000, 900, 100), 500);
    assert_eq!(fixed_lerp(1_000, 500, 3_000, 900, 9_000), 900);
}

#[test]
fn blend_values() {
    assert_eq!(fixed_blend(400, 800, 250), 500);
    assert_eq!(fixed_blend(400, 800, 0), 400);
    assert_eq!(fixed_blend(400, 800, 1_000), 800);
}
