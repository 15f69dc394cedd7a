use wireframe::fixed::{fx_add, fx_div, fx_mul, fx_neg, fx_sqrt, fx_sub, fx_trunc, FX_MAX, FX_MIN, FX_ONE};
use wireframe::math::{lerp, lerp_color, remap};

#[test]
fn add_and_sub_are_exact_in_range() {
    assert_eq!(fx_add(3 * FX_ONE, 4 * FX_ONE), 7 * FX_ONE);
    assert_eq!(fx_sub(3 * FX_ONE, 4 * FX_ONE), -FX_ONE);
    assert_eq!(fx_neg(5 * FX_ONE), -5 * FX_ONE);
}

#[test]
fn add_saturates_at_the_bounds() {
    assert_eq!(fx_add(FX_MAX, FX_MAX), FX_MAX);
    assert_eq!(fx_sub(FX_MIN, FX_MAX), FX_MIN);
    assert_eq!(fx_neg(FX_MIN), FX_MAX);
}

#[test]
fn mul_truncates_toward_zero() {
    assert_eq!(fx_mul(3 * FX_ONE, 4 * FX_ONE), 12 * FX_ONE);
    // 1.5 * 2.5 = 3.75
    assert_eq!(fx_mul(98304, 163840), 245760);
    assert_eq!(fx_mul(-98304, 163840), -245760);
    // (1/65536) * (1/65536) truncates to zero
    assert_eq!(fx_mul(1, 1), 0);
    assert_eq!(fx_mul(-1, 1), 0);
    assert_eq!(fx_mul(FX_MAX, FX_MAX), FX_MAX);
    assert_eq!(fx_mul(FX_MAX, -FX_MAX), FX_MIN);
}

#[test]
fn div_truncates_and_saturates_on_zero() {
    assert_eq!(fx_div(12 * FX_ONE, 4 * FX_ONE), 3 * FX_ONE);
    assert_eq!(fx_div(FX_ONE, 3 * FX_ONE), 21845); // 65536/3 truncated
    assert_eq!(fx_div(-FX_ONE, 3 * FX_ONE), -21845);
    assert_eq!(fx_div(5, 0), FX_MAX);
    assert_eq!(fx_div(0, 0), FX_MAX);
    assert_eq!(fx_div(-5, 0), FX_MIN);
}

#[test]
fn trunc_rounds_toward_zero() {
    assert_eq!(fx_trunc(3 * FX_ONE + 32768), 3);
    assert_eq!(fx_trunc(-(3 * FX_ONE + 32768)), -3);
    assert_eq!(fx_trunc(65535), 0);
    assert_eq!(fx_trunc(-65535), 0);
}

#[test]
fn sqrt_is_the_floor_square_root() {
    assert_eq!(fx_sqrt(4 * FX_ONE), 2 * FX_ONE);
    assert_eq!(fx_sqrt(FX_ONE), FX_ONE);
    assert_eq!(fx_sqrt(0), 0);
    assert_eq!(fx_sqrt(-FX_ONE), 0);
    // sqrt(2) = 1.41421356...; fixed point floor is 92681
    assert_eq!(fx_sqrt(2 * FX_ONE), 92681);
}

#[test]
fn lerp_hits_both_endpoints_and_the_middle() {
    assert_eq!(lerp(10, 200, 0), 10);
    assert_eq!(lerp(10, 200, FX_ONE), 200);
    assert_eq!(lerp(0, 255, 32768), 127);
}

#[test]
fn lerp_color_interpolates_per_channel() {
    assert_eq!(lerp_color(0x000000, 0xFFFFFF, 0), 0x000000);
    assert_eq!(lerp_color(0x000000, 0xFFFFFF, FX_ONE), 0xFFFFFF);
    assert_eq!(lerp_color(0x000000, 0xFFFFFF, 32768), 0x7F7F7F);
    assert_eq!(lerp_color(0xFF0000, 0x0000FF, 32768), 0x7F007F);
}

#[test]
fn remap_clamps_below_and_maps_linearly() {
    let one = FX_ONE;
    // 5 in [0, 10] remapped to [0, 1] is 0.5
    assert_eq!(remap(5 * one, 0, 10 * one, 0, one), 32768);
    // below the old minimum clamps to the new minimum
    assert_eq!(remap(-one, 0, 10 * one, 7 * one, 9 * one), 7 * one);
    // endpoints map to endpoints
    assert_eq!(remap(10 * one, 0, 10 * one, 3 * one, 5 * one), 5 * one);
}
