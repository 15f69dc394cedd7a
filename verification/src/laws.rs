//! Global properties of the camera matrices, proved once for all inputs.

use vstd::prelude::*;
use crate::fixed::FX_MAX;
use crate::fixed::FX_MIN;
use crate::fixed::FX_ONE;
use crate::fixed::fx_add_s;
use crate::fixed::fx_div_s;
use crate::fixed::fx_mul_s;
use crate::fixed::fx_sub_s;
use crate::fixed::lemma_fx_mul_comm;
use crate::fixed::lemma_fx_mul_zero;
use crate::fixed::tdiv;
use crate::fixed::lemma_fx_mul_one;
use crate::algebra::Vector4;
use crate::math::blue_c;
use crate::math::green_c;
use crate::math::lerp_color_s;
use crate::math::lerp_s;
use crate::math::pack_rgb;
use crate::math::red_c;
use crate::math::remap_s;
use crate::algebra::dot4_s;
use crate::algebra::mat_vec_mul_s;
use crate::render::Camera;
use crate::render::draw_line_s;
use crate::render::line_color_s;
use crate::render::axis_angle_matrix_s;
use crate::render::projection_matrix_s;
use crate::render::rigid_rotate_s;
use crate::render::view_matrix_s;

verus! {

/// Numerator of the ideal (pre-truncation) clip-space z of the projection:
/// the z row of the matrix, `(far+near)·z + 2·far·near·w`, taken over the
/// common denominator `near - far`. The executable matrix entries of
/// `projection_matrix_s` are the fixed-point truncations of these ratios.
pub open spec fn proj_clip_z_num(near: int, far: int, z: int, w: int) -> int {
    (far + near) * z + (2 * far * near) * w
}

/// Denominator of the ideal NDC z after the perspective divide: the common
/// denominator `near - far` times the clip w, which the projection's w row
/// makes `-z`.
pub open spec fn proj_ndc_z_den(near: int, far: int, z: int) -> int {
    (near - far) * (-z)
}

/// Depth range of the projection: for any camera with `0 < near < far`, the
/// ideal projection maps a view-space point at z = -near to NDC z = -1 and
/// a point at z = -far to NDC z = +1 (exactly, as a ratio of integers; the
/// field of view only scales x and y and does not enter the depth map).
/// The last two clauses pin the bridge to the executable matrix: its z-row
/// entries are the fixed-point truncations of the very ratios the first two
/// clauses evaluate, `(far+near)/(near-far)` and `2·far·near/(near-far)`.
pub proof fn lemma_projection_depth_range(c: Camera, aspect_ratio: int, tan_half_fov: int)
    requires
        0 < c.near < c.far,
    ensures
        proj_clip_z_num(c.near as int, c.far as int, -(c.near as int), 1) == -1
            * proj_ndc_z_den(c.near as int, c.far as int, -(c.near as int)),
        proj_clip_z_num(c.near as int, c.far as int, -(c.far as int), 1) == 1
            * proj_ndc_z_den(c.near as int, c.far as int, -(c.far as int)),
        proj_ndc_z_den(c.near as int, c.far as int, -(c.near as int)) != 0,
        proj_ndc_z_den(c.near as int, c.far as int, -(c.far as int)) != 0,
        projection_matrix_s(c.near as int, c.far as int, aspect_ratio, tan_half_fov).m22
            == fx_div_s(fx_add_s(c.far as int, c.near as int), fx_sub_s(c.near as int,
            c.far as int)),
        projection_matrix_s(c.near as int, c.far as int, aspect_ratio, tan_half_fov).m23
            == fx_div_s(fx_mul_s(fx_mul_s((2 * FX_ONE) as int, c.far as int), c.near as int),
            fx_sub_s(c.near as int, c.far as int)),
{
    reveal(projection_matrix_s);
    let n = c.near as int;
    let f = c.far as int;
    assert((f + n) * (-n) + (2 * f * n) * 1 == -1 * ((n - f) * n)) by (nonlinear_arith);
    assert((f + n) * (-f) + (2 * f * n) * 1 == 1 * ((n - f) * f)) by (nonlinear_arith);
    assert((n - f) * n < 0) by (nonlinear_arith)
        requires
            0 < n < f,
    ;
    assert((n - f) * f < 0) by (nonlinear_arith)
        requires
            0 < n < f,
    ;
}

/// The view matrix sends the camera's own position, transformed as a point
/// (w = 1), to the view-space origin (0, 0, 0, 1) — exactly, for every
/// camera: each translation entry cancels the matching basis dot product.
pub proof fn lemma_view_matrix_centers_position(c: Camera)
    ensures
        mat_vec_mul_s(
            view_matrix_s(c),
            Vector4 { x: c.position.x, y: c.position.y, z: c.position.z, w: FX_ONE },
        ) == (Vector4 { x: 0i64, y: 0i64, z: 0i64, w: FX_ONE }),
{
    reveal(view_matrix_s);
    let m = view_matrix_s(c);
    let px = c.position.x as int;
    let py = c.position.y as int;
    let pz = c.position.z as int;
    lemma_fx_mul_comm(m.m00 as int, px);
    lemma_fx_mul_comm(m.m01 as int, py);
    lemma_fx_mul_comm(m.m02 as int, pz);
    lemma_fx_mul_comm(m.m10 as int, px);
    lemma_fx_mul_comm(m.m11 as int, py);
    lemma_fx_mul_comm(m.m12 as int, pz);
    lemma_fx_mul_comm(m.m20 as int, px);
    lemma_fx_mul_comm(m.m21 as int, py);
    lemma_fx_mul_comm(m.m22 as int, pz);
    lemma_fx_mul_one(m.m03 as int);
    lemma_fx_mul_one(m.m13 as int);
    lemma_fx_mul_one(m.m23 as int);
    lemma_fx_mul_one(FX_ONE as int);
    let v = Vector4 { x: c.position.x, y: c.position.y, z: c.position.z, w: FX_ONE };
    assert(dot4_s(m.m00 as int, m.m01 as int, m.m02 as int, m.m03 as int, px, py, pz,
        FX_ONE as int) == 0);
    assert(dot4_s(m.m10 as int, m.m11 as int, m.m12 as int, m.m13 as int, px, py, pz,
        FX_ONE as int) == 0);
    assert(dot4_s(m.m20 as int, m.m21 as int, m.m22 as int, m.m23 as int, px, py, pz,
        FX_ONE as int) == 0);
    assert(fx_mul_s(0, px) == 0 && fx_mul_s(0, py) == 0 && fx_mul_s(0, pz) == 0);
    assert(dot4_s(m.m30 as int, m.m31 as int, m.m32 as int, m.m33 as int, px, py, pz,
        FX_ONE as int) == FX_ONE);
}

/// Rotating by angle zero — sine 0, cosine 1 — is the identity on any
/// representable point, whatever the axis: `rotate_around_look_at` with
/// these inputs leaves position, look-at and up unchanged (up to the w
/// component, which it pins to 1 as the original did).
pub proof fn lemma_rotate_zero_identity(axis: Vector4, v: Vector4)
    requires
        FX_MIN <= v.x <= FX_MAX,
        FX_MIN <= v.y <= FX_MAX,
        FX_MIN <= v.z <= FX_MAX,
    ensures
        rigid_rotate_s(axis_angle_matrix_s(axis, 0, FX_ONE as int), v) == (Vector4 {
            x: v.x,
            y: v.y,
            z: v.z,
            w: FX_ONE,
        }),
{
    reveal(axis_angle_matrix_s);
    let m = axis_angle_matrix_s(axis, 0, FX_ONE as int);
    let n = crate::algebra::normalize3_s(axis);
    lemma_fx_mul_one(v.x as int);
    lemma_fx_mul_one(v.y as int);
    lemma_fx_mul_one(v.z as int);
    lemma_fx_mul_zero(n.x as int);
    lemma_fx_mul_zero(n.y as int);
    lemma_fx_mul_zero(n.z as int);
    lemma_fx_mul_zero(fx_mul_s(n.x as int, n.x as int));
    lemma_fx_mul_zero(fx_mul_s(n.x as int, n.y as int));
    lemma_fx_mul_zero(fx_mul_s(n.x as int, n.z as int));
    lemma_fx_mul_zero(fx_mul_s(n.y as int, n.x as int));
    lemma_fx_mul_zero(fx_mul_s(n.y as int, n.y as int));
    lemma_fx_mul_zero(fx_mul_s(n.y as int, n.z as int));
    lemma_fx_mul_zero(fx_mul_s(n.z as int, n.x as int));
    lemma_fx_mul_zero(fx_mul_s(n.z as int, n.y as int));
    lemma_fx_mul_zero(fx_mul_s(n.z as int, n.z as int));
    assert(crate::fixed::fx_sub_s(FX_ONE as int, FX_ONE as int) == 0);
    assert(m.m00 == FX_ONE && m.m11 == FX_ONE && m.m22 == FX_ONE);
    assert(m.m01 == 0 && m.m02 == 0 && m.m10 == 0 && m.m12 == 0 && m.m20 == 0 && m.m21 == 0);
    assert(dot4_s(m.m00 as int, m.m01 as int, m.m02 as int, m.m03 as int, v.x as int, v.y as int,
        v.z as int, FX_ONE as int) == v.x);
    assert(dot4_s(m.m10 as int, m.m11 as int, m.m12 as int, m.m13 as int, v.x as int, v.y as int,
        v.z as int, FX_ONE as int) == v.y);
    assert(dot4_s(m.m20 as int, m.m21 as int, m.m22 as int, m.m23 as int, v.x as int, v.y as int,
        v.z as int, FX_ONE as int) == v.z);
}

/// A degenerate segment at the viewport origin plots exactly one pixel:
/// drawing from (0, 0) to (0, 0) updates index 0 and nothing else, and the
/// pixel takes the start color unchanged, since the interpolation
/// parameter at column zero is zero (colors use the low 24 bits).
pub proof fn lemma_degenerate_line_plots_start_color(
    buf: Seq<u32>,
    w: int,
    h: int,
    c0: u32,
    c1: u32,
)
    requires
        1 <= w <= 0x100000,
        1 <= h,
        c0 < 0x1000000,
    ensures
        draw_line_s(buf, w, h, 0, 0, 0, 0, c0, c1) == buf.update(0, c0),
{
    vstd::arithmetic::div_mod::lemma_div_of0(65536 * w);
    assert(tdiv(0, 65536 * w) == 0);
    assert(remap_s(0, 0, 65536 * w, 0, FX_ONE as int) == 0);
    lemma_lerp_at_zero(red_c(c0), red_c(c1));
    lemma_lerp_at_zero(green_c(c0), green_c(c1));
    lemma_lerp_at_zero(blue_c(c0), blue_c(c1));
    assert(lerp_color_s(c0, c1, 0) == pack_rgb(red_c(c0), green_c(c0), blue_c(c0)));
    assert(pack_rgb(red_c(c0), green_c(c0), blue_c(c0)) == c0) by (bit_vector)
        requires
            c0 < 0x1000000,
    ;
    assert(line_color_s(c0, c1, 0, w) == c0);
}

/// Interpolating with parameter zero returns the start value.
proof fn lemma_lerp_at_zero(a: u8, b: u8)
    ensures
        lerp_s(a, b, 0) == a,
{
    vstd::arithmetic::div_mod::lemma_div_by_multiple(a as int, 65536);
    assert((a as int) * 65536 == 65536 * (a as int));
    assert(tdiv((FX_ONE - 0) * (a as int) + 0 * (b as int), FX_ONE as int) == a);
}

} // verus!
