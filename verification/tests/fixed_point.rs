use scene_engine::fx::{fx_add, fx_clamp, fx_div, fx_mul, fx_neg, fx_sub};
use scene_engine::trig::{cos_deg, sin_deg, wrap_360, DEG_180, DEG_360, DEG_90};
use scene_engine::{FX_LIM, SCALE};

#[test]
fn add_and_sub_are_exact_in_range() {
    assert_eq!(fx_add(1_500_000, 2_500_000), 4_000_000);
    assert_eq!(fx_sub(1_500_000, 2_500_000), -1_000_000);
    assert_eq!(fx_add(-3, 3), 0);
}

#[test]
fn add_saturates_at_the_limit() {
    assert_eq!(fx_add(FX_LIM, 1), FX_LIM);
    assert_eq!(fx_sub(-FX_LIM, 1), -FX_LIM);
    assert_eq!(fx_add(FX_LIM, -1), FX_LIM - 1);
}

#[test]
fn mul_scales_back_down() {
    // 2.0 * 3.0 == 6.0
    assert_eq!(fx_mul(2_000_000, 3_000_000), 6_000_000);
    // 0.5 * 0.5 == 0.25
    assert_eq!(fx_mul(500_000, 500_000), 250_000);
    // truncation toward zero on both signs
    assert_eq!(fx_mul(1, 1), 0);
    assert_eq!(fx_mul(-1, 1), 0);
}

#[test]
fn mul_saturates() {
    assert_eq!(fx_mul(FX_LIM, FX_LIM), FX_LIM);
    assert_eq!(fx_mul(FX_LIM, -FX_LIM), -FX_LIM);
}

#[test]
fn div_is_exact_and_total() {
    // 3.0 / 2.0 == 1.5
    assert_eq!(fx_div(3_000_000, 2_000_000), 1_500_000);
    assert_eq!(fx_div(-3_000_000, 2_000_000), -1_500_000);
    // division by zero is defined as zero
    assert_eq!(fx_div(1_000_000, 0), 0);
}

#[test]
fn neg_and_clamp() {
    assert_eq!(fx_neg(5), -5);
    assert_eq!(fx_clamp(15, 0, 10), 10);
    assert_eq!(fx_clamp(-15, 0, 10), 0);
    assert_eq!(fx_clamp(7, 0, 10), 7);
}

#[test]
fn sine_is_exact_at_quadrants() {
    assert_eq!(sin_deg(0), 0);
    assert_eq!(sin_deg(DEG_90), SCALE);
    assert_eq!(sin_deg(DEG_180), 0);
    assert_eq!(sin_deg(DEG_180 + DEG_90), -SCALE);
    assert_eq!(sin_deg(DEG_360), 0);
}

#[test]
fn cosine_is_exact_at_quadrants() {
    assert_eq!(cos_deg(0), SCALE);
    assert_eq!(cos_deg(DEG_90), 0);
    assert_eq!(cos_deg(DEG_180), -SCALE);
    assert_eq!(cos_deg(DEG_360), SCALE);
}

#[test]
fn sine_stays_within_one_unit() {
    let mut d: i64 = -720_000_000;
    while d <= 720_000_000 {
        let s = sin_deg(d);
        assert!(-SCALE <= s && s <= SCALE);
        d += 7_000_000;
    }
}

#[test]
fn forty_five_degrees_is_symmetric() {
    // sin(45) == cos(45) for the half-turn approximation
    assert_eq!(sin_deg(45_000_000), cos_deg(45_000_000));
}

#[test]
fn wrap_reduces_into_one_turn() {
    assert_eq!(wrap_360(0), 0);
    assert_eq!(wrap_360(DEG_360), 0);
    assert_eq!(wrap_360(-90_000_000), 270_000_000);
    assert_eq!(wrap_360(730_000_000), 10_000_000);
    assert_eq!(wrap_360(-730_000_000), 350_000_000);
}
