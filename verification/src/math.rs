//! Interpolation and range-remapping helpers for the rasterizer.
//!
//! The interpolation parameter `t` is a fixed-point fraction: `0` means the
//! start value, `FX_ONE` the end value.

use vstd::prelude::*;
use crate::fixed::FX_ONE;
use crate::fixed::abs_i;
use crate::fixed::fx_add;
use crate::fixed::fx_add_s;
use crate::fixed::fx_div;
use crate::fixed::fx_div_s;
use crate::fixed::fx_mul;
use crate::fixed::fx_mul_s;
use crate::fixed::fx_sub;
use crate::fixed::fx_sub_s;
use crate::fixed::tdiv;

verus! {

/// `(1 - t)·a + t·b`, truncated to an integer.
pub open spec fn lerp_s(a: u8, b: u8, t: int) -> int {
    tdiv((FX_ONE - t) * (a as int) + t * (b as int), FX_ONE as int)
}

pub open spec fn red_c(c: u32) -> u8 {
    ((c >> 16) & 0xFF) as u8
}

pub open spec fn green_c(c: u32) -> u8 {
    ((c >> 8) & 0xFF) as u8
}

pub open spec fn blue_c(c: u32) -> u8 {
    (c & 0xFF) as u8
}

pub open spec fn pack_rgb(r: u8, g: u8, b: u8) -> u32 {
    ((r as u32) << 16) | ((g as u32) << 8) | (b as u32)
}

/// Channel-wise interpolation of two packed 24-bit RGB colors; bits above
/// the low 24 are dropped, as the channel extraction ignores them.
pub open spec fn lerp_color_s(a: u32, b: u32, t: int) -> u32 {
    pack_rgb(
        lerp_s(red_c(a), red_c(b), t) as u8,
        lerp_s(green_c(a), green_c(b), t) as u8,
        lerp_s(blue_c(a), blue_c(b), t) as u8,
    )
}

/// Affine remap of `value` from [old_min, old_max] to [new_min, new_max];
/// values below `old_min` clamp to `new_min`.
pub open spec fn remap_s(value: int, old_min: int, old_max: int, new_min: int, new_max: int) -> int {
    if value < old_min {
        new_min
    } else {
        fx_add_s(
            fx_mul_s(
                fx_div_s(fx_sub_s(value, old_min), fx_sub_s(old_max, old_min)),
                fx_sub_s(new_max, new_min),
            ),
            new_min,
        )
    }
}

pub fn lerp(a: u8, b: u8, t: i64) -> (r: u8)
    requires
        0 <= t <= FX_ONE,
    ensures
        r == lerp_s(a, b, t as int),
        0 <= lerp_s(a, b, t as int) <= 255,
{
    proof {
        assert(0 <= (FX_ONE - t) * (a as int) <= 16711680) by (nonlinear_arith)
            requires
                0 <= FX_ONE - t <= 65536,
                0 <= a < 256,
        ;
        assert(0 <= t * (b as int) <= 16711680) by (nonlinear_arith)
            requires
                0 <= t <= 65536,
                0 <= b < 256,
        ;
        assert((FX_ONE - t) * (a as int) + t * (b as int) <= 65536 * 255) by (nonlinear_arith)
            requires
                0 <= t <= 65536,
                0 <= a < 256,
                0 <= b < 256,
        ;
    }
    let lhs: i64 = (FX_ONE - t) * (a as i64);
    let rhs: i64 = t * (b as i64);
    let acc: u64 = (lhs as u64) + (rhs as u64);
    let q: u64 = acc / 65536u64;
    assert(q == tdiv((FX_ONE - t) * (a as int) + t * (b as int), FX_ONE as int));
    q as u8
}

pub fn lerp_color(a: u32, b: u32, t: i64) -> (r: u32)
    requires
        0 <= t <= FX_ONE,
    ensures
        r == lerp_color_s(a, b, t as int),
{
    let ar: u8 = ((a >> 16) & 0xFF) as u8;
    let ag: u8 = ((a >> 8) & 0xFF) as u8;
    let ab: u8 = (a & 0xFF) as u8;
    let br: u8 = ((b >> 16) & 0xFF) as u8;
    let bg: u8 = ((b >> 8) & 0xFF) as u8;
    let bb: u8 = (b & 0xFF) as u8;
    let rr: u8 = lerp(ar, br, t);
    let rg: u8 = lerp(ag, bg, t);
    let rb: u8 = lerp(ab, bb, t);
    ((rr as u32) << 16) | ((rg as u32) << 8) | (rb as u32)
}

pub fn remap(value: i64, old_min: i64, old_max: i64, new_min: i64, new_max: i64) -> (r: i64)
    ensures
        r == remap_s(value as int, old_min as int, old_max as int, new_min as int, new_max as int),
{
    if value < old_min {
        return new_min;
    }
    fx_add(
        fx_mul(
            fx_div(fx_sub(value, old_min), fx_sub(old_max, old_min)),
            fx_sub(new_max, new_min),
        ),
        new_min,
    )
}

/// Remapping a screen column `x` of a viewport `w` columns wide into the unit
/// range gives a fraction, so it is a valid interpolation parameter.
pub proof fn lemma_remap_unit(x: int, w: int)
    requires
        0 <= x < w,
        w <= 0x100000,
    ensures
        0 <= remap_s(65536 * x, 0, 65536 * w, 0, FX_ONE as int) <= FX_ONE,
{
    assert(fx_sub_s(65536 * x, 0) == 65536 * x);
    assert(fx_sub_s(65536 * w, 0) == 65536 * w);
    let p = 65536 * (65536 * x);
    let d = 65536 * w;
    assert(0 <= p / d < 65536) by (nonlinear_arith)
        requires
            0 <= x < w,
            p == 65536 * (65536 * x),
            d == 65536 * w,
    ;
    assert(abs_i(p) == p && abs_i(d) == d);
    assert(tdiv(p, d) == p / d);
    let q = fx_div_s(65536 * x, 65536 * w);
    assert(q == p / d);
    assert(0 <= q <= 65535);
    assert(fx_mul_s(q, FX_ONE as int) == q) by {
        assert(abs_i(q * 65536) == q * 65536 && tdiv(q * 65536, 65536) == q) by (nonlinear_arith)
            requires
                0 <= q <= 65535,
        ;
    }
}

} // verus!
