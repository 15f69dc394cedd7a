//! The transform-and-rasterize pipeline: camera matrices, the vertex
//! pipeline (model, view, projection, perspective divide, screen mapping),
//! and the Bresenham rasterizer.
//!
//! All arithmetic is the saturating fixed-point arithmetic of `fixed`;
//! contracts give the exact value of every result. Trigonometric inputs
//! (a tangent or a sine/cosine pair) are plain fixed-point scalars that the
//! caller computes, since transcendental functions are outside this
//! library's arithmetic.

use vstd::prelude::*;
use vstd::pervasive::VecAdditionalExecFns;
use crate::fixed::FX_ONE;
use crate::fixed::abs_i;
use crate::fixed::fx_add;
use crate::fixed::fx_add_s;
use crate::fixed::fx_div;
use crate::fixed::fx_div_s;
use crate::fixed::fx_mul;
use crate::fixed::fx_mul_s;
use crate::fixed::fx_neg;
use crate::fixed::fx_neg_s;
use crate::fixed::fx_sub;
use crate::fixed::fx_sub_s;
use crate::fixed::fx_trunc;
use crate::fixed::fx_trunc_s;
use crate::math::lerp_color;
use crate::math::lerp_color_s;
use crate::math::lemma_remap_unit;
use crate::math::remap;
use crate::math::remap_s;
use crate::algebra::Matrix4;
use crate::algebra::Vector4;
use crate::algebra::cross3;
use crate::algebra::cross3_s;
use crate::algebra::dot3;
use crate::algebra::dot3_s;
use crate::algebra::mat_mul_s;
use crate::algebra::mat_vec_mul_s;
use crate::algebra::normalize3;
use crate::algebra::normalize3_s;

verus! {

/// A mesh: local-space vertices, one packed color per vertex, and topology
/// given as vertex-index pairs (edges) and triples (triangles).
pub struct Object3D {
    pub vertices: Vec<Vector4>,
    pub colors: Vec<u32>,
    pub edges: Vec<(usize, usize)>,
    pub triangles: Vec<(usize, usize, usize)>,
}

/// The mesh invariant the pipeline relies on: the color array parallels the
/// vertex array, and every edge or triangle index refers to a vertex.
pub open spec fn obj_wf(o: Object3D) -> bool {
    &&& o.colors@.len() == o.vertices@.len()
    &&& forall|i: int|
        0 <= i < o.edges@.len() ==> (#[trigger] o.edges@[i]).0 < o.vertices@.len()
            && o.edges@[i].1 < o.vertices@.len()
    &&& forall|i: int|
        0 <= i < o.triangles@.len() ==> (#[trigger] o.triangles@[i]).0 < o.vertices@.len()
            && o.triangles@[i].1 < o.vertices@.len() && o.triangles@[i].2 < o.vertices@.len()
}

impl Object3D {
    pub fn new(
        vertices: Vec<Vector4>,
        colors: Vec<u32>,
        edges: Vec<(usize, usize)>,
        triangles: Vec<(usize, usize, usize)>,
    ) -> (r: Object3D)
        ensures
            r.vertices@ == vertices@,
            r.colors@ == colors@,
            r.edges@ == edges@,
            r.triangles@ == triangles@,
    {
        Object3D { vertices, colors, edges, triangles }
    }
}

/// A point light; the pipeline itself does no shading, the value is carried
/// for collaborators.
pub struct Light {
    pub position: Vector4,
    pub color: u32,
    pub intensity: i64,
}

/// Perspective camera: field of view in fixed-point degrees, clip distances,
/// and a pose given by position, look-at target and up direction.
#[derive(Clone, Copy, PartialEq, Eq, Structural, Debug)]
pub struct Camera {
    pub fov: i64,
    pub near: i64,
    pub far: i64,
    pub up: Vector4,
    pub position: Vector4,
    pub look_at: Vector4,
}

/// Aspect ratio of a viewport as a fixed-point quotient.
pub open spec fn aspect_ratio_s(w: int, h: int) -> int {
    fx_div_s(65536 * w, 65536 * h)
}

/// Perspective projection: `f = 1/tan(fov/2)`; columns scale x by
/// `f/aspect`, y by `f`; the z row maps view-space depth into the clip
/// range via `(far+near)/(near-far)` and `2·far·near/(near-far)`; the w row
/// is (0, 0, -1, 0).
#[verifier::opaque]
pub open spec fn projection_matrix_s(near: int, far: int, aspect_ratio: int, tan_half_fov: int) -> Matrix4 {
    let f = fx_div_s(FX_ONE as int, tan_half_fov);
    Matrix4 {
        m00: fx_div_s(f, aspect_ratio) as i64,
        m01: 0,
        m02: 0,
        m03: 0,
        m10: 0,
        m11: f as i64,
        m12: 0,
        m13: 0,
        m20: 0,
        m21: 0,
        m22: fx_div_s(fx_add_s(far, near), fx_sub_s(near, far)) as i64,
        m23: fx_div_s(fx_mul_s(fx_mul_s(2 * FX_ONE, far), near), fx_sub_s(near, far)) as i64,
        m30: 0,
        m31: 0,
        m32: (-FX_ONE) as i64,
        m33: 0,
    }
}

/// Look-at view matrix: rows are the camera basis (right, true up, forward),
/// the last column the negated dot products of the basis with the position.
#[verifier::opaque]
pub open spec fn view_matrix_s(c: Camera) -> Matrix4 {
    let fwd = normalize3_s(
        Vector4 {
            x: fx_sub_s(c.look_at.x as int, c.position.x as int) as i64,
            y: fx_sub_s(c.look_at.y as int, c.position.y as int) as i64,
            z: fx_sub_s(c.look_at.z as int, c.position.z as int) as i64,
            w: 0,
        },
    );
    let right = normalize3_s(cross3_s(c.up, fwd));
    let up = normalize3_s(cross3_s(fwd, right));
    let p = fx_neg_s(
        dot3_s(c.position.x as int, c.position.y as int, c.position.z as int, right.x as int,
            right.y as int, right.z as int),
    );
    let q = fx_neg_s(
        dot3_s(c.position.x as int, c.position.y as int, c.position.z as int, up.x as int,
            up.y as int, up.z as int),
    );
    let r = fx_neg_s(
        dot3_s(c.position.x as int, c.position.y as int, c.position.z as int, fwd.x as int,
            fwd.y as int, fwd.z as int),
    );
    Matrix4 {
        m00: right.x,
        m01: right.y,
        m02: right.z,
        m03: p as i64,
        m10: up.x,
        m11: up.y,
        m12: up.z,
        m13: q as i64,
        m20: fwd.x,
        m21: fwd.y,
        m22: fwd.z,
        m23: r as i64,
        m30: 0,
        m31: 0,
        m32: 0,
        m33: FX_ONE,
    }
}

/// Rotation about the world origin by an axis and an angle, the latter given
/// by its sine and cosine (Rodrigues form over the normalized axis).
#[verifier::opaque]
pub open spec fn axis_angle_matrix_s(axis: Vector4, sin: int, cos: int) -> Matrix4 {
    let n = normalize3_s(axis);
    let nx = n.x as int;
    let ny = n.y as int;
    let nz = n.z as int;
    let omc = fx_sub_s(FX_ONE as int, cos);
    Matrix4 {
        m00: fx_add_s(cos, fx_mul_s(omc, fx_mul_s(nx, nx))) as i64,
        m01: fx_sub_s(fx_mul_s(omc, fx_mul_s(nx, ny)), fx_mul_s(sin, nz)) as i64,
        m02: fx_add_s(fx_mul_s(omc, fx_mul_s(nx, nz)), fx_mul_s(sin, ny)) as i64,
        m03: 0,
        m10: fx_add_s(fx_mul_s(omc, fx_mul_s(ny, nx)), fx_mul_s(sin, nz)) as i64,
        m11: fx_add_s(cos, fx_mul_s(omc, fx_mul_s(ny, ny))) as i64,
        m12: fx_sub_s(fx_mul_s(omc, fx_mul_s(ny, nz)), fx_mul_s(sin, nx)) as i64,
        m13: 0,
        m20: fx_sub_s(fx_mul_s(omc, fx_mul_s(nz, nx)), fx_mul_s(sin, ny)) as i64,
        m21: fx_add_s(fx_mul_s(omc, fx_mul_s(nz, ny)), fx_mul_s(sin, nx)) as i64,
        m22: fx_add_s(cos, fx_mul_s(omc, fx_mul_s(nz, nz))) as i64,
        m23: 0,
        m30: 0,
        m31: 0,
        m32: 0,
        m33: FX_ONE,
    }
}

/// Rotate the (x, y, z) part of `v` as a point (w = 1), keeping w = 1.
pub open spec fn rigid_rotate_s(m: Matrix4, v: Vector4) -> Vector4 {
    let t = mat_vec_mul_s(m, Vector4 { x: v.x, y: v.y, z: v.z, w: FX_ONE });
    Vector4 { x: t.x, y: t.y, z: t.z, w: FX_ONE }
}

impl Camera {
    /// Build the perspective projection for a viewport aspect ratio.
    /// `tan_half_fov` is tan(fov/2) with the fov taken in radians, computed
    /// by the caller from `self.fov`.
    pub fn get_projection_matrix(&self, aspect_ratio: i64, tan_half_fov: i64) -> (r: Matrix4)
        ensures
            r == projection_matrix_s(self.near as int, self.far as int, aspect_ratio as int,
                tan_half_fov as int),
    {
        proof {
            reveal(projection_matrix_s);
        }
        let f: i64 = fx_div(FX_ONE, tan_half_fov);
        Matrix4 {
            m00: fx_div(f, aspect_ratio),
            m01: 0,
            m02: 0,
            m03: 0,
            m10: 0,
            m11: f,
            m12: 0,
            m13: 0,
            m20: 0,
            m21: 0,
            m22: fx_div(fx_add(self.far, self.near), fx_sub(self.near, self.far)),
            m23: fx_div(fx_mul(fx_mul(2 * FX_ONE, self.far), self.near),
                fx_sub(self.near, self.far)),
            m30: 0,
            m31: 0,
            m32: -FX_ONE,
            m33: 0,
        }
    }

    /// Build the look-at view matrix from position, look-at and up.
    pub fn get_view_matrix(&self) -> (r: Matrix4)
        ensures
            r == view_matrix_s(*self),
    {
        proof {
            reveal(view_matrix_s);
        }
        let fwd = normalize3(
            &Vector4 {
                x: fx_sub(self.look_at.x, self.position.x),
                y: fx_sub(self.look_at.y, self.position.y),
                z: fx_sub(self.look_at.z, self.position.z),
                w: 0,
            },
        );
        let right = normalize3(&cross3(&self.up, &fwd));
        let up = normalize3(&cross3(&fwd, &right));
        let p: i64 = fx_neg(dot3(self.position.x, self.position.y, self.position.z, right.x,
            right.y, right.z));
        let q: i64 = fx_neg(dot3(self.position.x, self.position.y, self.position.z, up.x, up.y,
            up.z));
        let r: i64 = fx_neg(dot3(self.position.x, self.position.y, self.position.z, fwd.x, fwd.y,
            fwd.z));
        Matrix4 {
            m00: right.x,
            m01: right.y,
            m02: right.z,
            m03: p,
            m10: up.x,
            m11: up.y,
            m12: up.z,
            m13: q,
            m20: fwd.x,
            m21: fwd.y,
            m22: fwd.z,
            m23: r,
            m30: 0,
            m31: 0,
            m32: 0,
            m33: FX_ONE,
        }
    }

    /// Rotate position, look-at and up together by the same axis-angle
    /// rotation about the world origin (not about the look-at target: the
    /// offsets move as one rigid whole). The angle comes in as its sine and
    /// cosine, fixed-point scalars the caller computes.
    pub fn rotate_around_look_at(&mut self, axis: Vector4, sin: i64, cos: i64)
        ensures
            final(self).position == rigid_rotate_s(
                axis_angle_matrix_s(axis, sin as int, cos as int), old(self).position),
            final(self).look_at == rigid_rotate_s(
                axis_angle_matrix_s(axis, sin as int, cos as int), old(self).look_at),
            final(self).up == rigid_rotate_s(
                axis_angle_matrix_s(axis, sin as int, cos as int), old(self).up),
            final(self).fov == old(self).fov,
            final(self).near == old(self).near,
            final(self).far == old(self).far,
    {
        proof {
            reveal(axis_angle_matrix_s);
        }
        let n = normalize3(&axis);
        let omc: i64 = fx_sub(FX_ONE, cos);
        let rot = Matrix4 {
            m00: fx_add(cos, fx_mul(omc, fx_mul(n.x, n.x))),
            m01: fx_sub(fx_mul(omc, fx_mul(n.x, n.y)), fx_mul(sin, n.z)),
            m02: fx_add(fx_mul(omc, fx_mul(n.x, n.z)), fx_mul(sin, n.y)),
            m03: 0,
            m10: fx_add(fx_mul(omc, fx_mul(n.y, n.x)), fx_mul(sin, n.z)),
            m11: fx_add(cos, fx_mul(omc, fx_mul(n.y, n.y))),
            m12: fx_sub(fx_mul(omc, fx_mul(n.y, n.z)), fx_mul(sin, n.x)),
            m13: 0,
            m20: fx_sub(fx_mul(omc, fx_mul(n.z, n.x)), fx_mul(sin, n.y)),
            m21: fx_add(fx_mul(omc, fx_mul(n.z, n.y)), fx_mul(sin, n.x)),
            m22: fx_add(cos, fx_mul(omc, fx_mul(n.z, n.z))),
            m23: 0,
            m30: 0,
            m31: 0,
            m32: 0,
            m33: FX_ONE,
        };
        let position = rot.transform(
            &Vector4 { x: self.position.x, y: self.position.y, z: self.position.z, w: FX_ONE },
        );
        let look_at = rot.transform(
            &Vector4 { x: self.look_at.x, y: self.look_at.y, z: self.look_at.z, w: FX_ONE },
        );
        let up = rot.transform(&Vector4 { x: self.up.x, y: self.up.y, z: self.up.z, w: FX_ONE });
        self.position = Vector4 { x: position.x, y: position.y, z: position.z, w: FX_ONE };
        self.look_at = Vector4 { x: look_at.x, y: look_at.y, z: look_at.z, w: FX_ONE };
        self.up = Vector4 { x: up.x, y: up.y, z: up.z, w: FX_ONE };
    }
}

/// The color drawn at screen column `x`: the endpoint colors interpolated by
/// the column's position across the whole viewport width (not by distance
/// along the segment).
pub open spec fn line_color_s(c0: u32, c1: u32, x: int, w: int) -> u32 {
    lerp_color_s(c0, c1, remap_s(65536 * x, 0, 65536 * w, 0, FX_ONE as int))
}

/// Decreases measure for the line walk: steps move x and y monotonically, so
/// the distance to the viewport border they walk toward shrinks.
pub open spec fn line_measure(w: int, h: int, x: int, y: int, sxp: bool, syp: bool) -> int {
    (if sxp {
        w - x
    } else {
        x + 1
    }) + (if syp {
        h - y
    } else {
        y + 1
    })
}

/// One Bresenham walk from (x, y) toward (x1, y1): plot the current pixel,
/// stop at the endpoint, otherwise advance by the error rule. The walk also
/// stops the moment it leaves the viewport. `dx`, `dy` are the absolute
/// deltas of the whole segment, `sxp`/`syp` the step directions, `err` the
/// running error term.
pub open spec fn line_trace_s(
    buf: Seq<u32>,
    w: int,
    h: int,
    x: int,
    y: int,
    x1: int,
    y1: int,
    dx: int,
    dy: int,
    sxp: bool,
    syp: bool,
    err: int,
    c0: u32,
    c1: u32,
) -> Seq<u32>
    decreases line_measure(w, h, x, y, sxp, syp),
{
    if !(0 <= x < w && 0 <= y < h) {
        buf
    } else {
        let plotted = buf.update(y * w + x, line_color_s(c0, c1, x, w));
        if x == x1 && y == y1 {
            plotted
        } else {
            let e2 = 2 * err;
            let nx = if e2 > -dy {
                if sxp {
                    x + 1
                } else {
                    x - 1
                }
            } else {
                x
            };
            let ny = if e2 < dx {
                if syp {
                    y + 1
                } else {
                    y - 1
                }
            } else {
                y
            };
            let nerr = err + (if e2 > -dy {
                -dy
            } else {
                0
            }) + (if e2 < dx {
                dx
            } else {
                0
            });
            if nx == x && ny == y {
                plotted
            } else {
                line_trace_s(plotted, w, h, nx, ny, x1, y1, dx, dy, sxp, syp, nerr, c0, c1)
            }
        }
    }
}

/// The buffer after drawing the whole segment from (x0, y0) to (x1, y1).
pub open spec fn draw_line_s(
    buf: Seq<u32>,
    w: int,
    h: int,
    x0: int,
    y0: int,
    x1: int,
    y1: int,
    c0: u32,
    c1: u32,
) -> Seq<u32> {
    line_trace_s(buf, w, h, x0, y0, x1, y1, abs_i(x1 - x0), abs_i(y1 - y0), x0 < x1, y0 < y1,
        abs_i(x1 - x0) - abs_i(y1 - y0), c0, c1)
}

/// Integer Bresenham line with endpoint-color interpolation. Coordinates are
/// signed; every plotted pixel is bounds-checked, and the walk stops
/// entirely once it leaves the viewport.
pub fn draw_line(
    buffer: &mut Vec<u32>,
    dimensions: (usize, usize),
    x0: i64,
    y0: i64,
    x1: i64,
    y1: i64,
    c0: u32,
    c1: u32,
)
    requires
        old(buffer)@.len() == dimensions.0 * dimensions.1,
        dimensions.0 <= 0x100000,
        dimensions.1 <= 0x100000,
        -0x1_0000_0000_0000 <= x0 <= 0x1_0000_0000_0000,
        -0x1_0000_0000_0000 <= y0 <= 0x1_0000_0000_0000,
        -0x1_0000_0000_0000 <= x1 <= 0x1_0000_0000_0000,
        -0x1_0000_0000_0000 <= y1 <= 0x1_0000_0000_0000,
    ensures
        final(buffer)@ == draw_line_s(old(buffer)@, dimensions.0 as int, dimensions.1 as int, x0 as int,
            y0 as int, x1 as int, y1 as int, c0, c1),
        final(buffer)@.len() == old(buffer)@.len(),
{
    let w: usize = dimensions.0;
    let h: usize = dimensions.1;
    let wi: i64 = w as i64;
    let hi: i64 = h as i64;
    let dx: i64 = if x1 >= x0 {
        x1 - x0
    } else {
        x0 - x1
    };
    let dy: i64 = if y1 >= y0 {
        y1 - y0
    } else {
        y0 - y1
    };
    let sxp: bool = x0 < x1;
    let syp: bool = y0 < y1;
    let mut x: i64 = x0;
    let mut y: i64 = y0;
    let mut err: i64 = dx - dy;
    let mut done: bool = false;
    let buf_len: usize = buffer.len();
    proof {
        assert(buf_len == buffer@.len());
    }
    let ghost buf0 = buffer@;
    while !done && x >= 0 && y >= 0 && x < wi && y < hi
        invariant
            buffer@.len() == w * h,
            w * h <= usize::MAX,
            w == dimensions.0,
            h == dimensions.1,
            wi == w,
            hi == h,
            w <= 0x100000,
            h <= 0x100000,
            dx == abs_i(x1 as int - x0 as int),
            dy == abs_i(y1 as int - y0 as int),
            0 <= dx <= 0x2_0000_0000_0000,
            0 <= dy <= 0x2_0000_0000_0000,
            sxp == (x0 < x1),
            syp == (y0 < y1),
            -0x1_0000_0000_0001 <= x <= 0x1_0000_0000_0001,
            -0x1_0000_0000_0001 <= y <= 0x1_0000_0000_0001,
            -2 * (dx + dy) - 1 <= err <= 2 * (dx + dy) + 1,
            dx + dy == 0 ==> x == x0 && y == y0,
            line_trace_s(buf0, w as int, h as int, x0 as int, y0 as int, x1 as int, y1 as int,
                dx as int, dy as int, sxp, syp, (dx - dy) as int, c0, c1) == (if done {
                buffer@
            } else {
                line_trace_s(buffer@, w as int, h as int, x as int, y as int, x1 as int, y1 as int,
                    dx as int, dy as int, sxp, syp, err as int, c0, c1)
            }),
        decreases (if done {
            0int
        } else {
            line_measure(w as int, h as int, x as int, y as int, sxp, syp) + 1
        }),
    {
        let ghost pre = buffer@;
        let t: i64 = remap(x * 65536, 0, wi * 65536, 0, FX_ONE);
        proof {
            lemma_remap_unit(x as int, w as int);
        }
        let color: u32 = lerp_color(c0, c1, t);
        proof {
            assert((y as int) * (w as int) + (x as int) < (w as int) * (h as int))
                by (nonlinear_arith)
                requires
                    0 <= (x as int) < (w as int),
                    0 <= (y as int) < (h as int),
            ;
            assert((y as usize as int) * (w as int) == (y as int) * (w as int));
        }
        let idx: usize = (y as usize) * w + (x as usize);
        buffer.set(idx, color);
        proof {
            assert(color == line_color_s(c0, c1, x as int, w as int));
            assert(buffer@ == pre.update((y as int) * (w as int) + (x as int),
                line_color_s(c0, c1, x as int, w as int)));
        }
        if x == x1 && y == y1 {
            done = true;
        } else {
            proof {
                if dx + dy == 0 {
                    assert(x == x0 && y == y0);
                    assert(x0 == x1 && y0 == y1);
                    assert(false);
                }
            }
            let e2: i64 = 2 * err;
            if e2 > -dy {
                err = err - dy;
                x = x + if sxp {
                    1
                } else {
                    -1
                };
            }
            if e2 < dx {
                err = err + dx;
                y = y + if syp {
                    1
                } else {
                    -1
                };
            }
            proof {
                assert(!(e2 > -dy) && !(e2 < dx) ==> dx == 0 && dy == 0);
            }
        }
    }
}

/// The buffer after drawing the three edges of a triangle, in order
/// (a, b), (b, c), (c, a).
pub open spec fn draw_triangle_s(
    buf: Seq<u32>,
    w: int,
    h: int,
    x0: int,
    y0: int,
    x1: int,
    y1: int,
    x2: int,
    y2: int,
    c0: u32,
    c1: u32,
    c2: u32,
) -> Seq<u32> {
    draw_line_s(
        draw_line_s(draw_line_s(buf, w, h, x0, y0, x1, y1, c0, c1), w, h, x1, y1, x2, y2, c1, c2),
        w,
        h,
        x2,
        y2,
        x0,
        y0,
        c2,
        c0,
    )
}

/// A triangle is its three edges; the interior is never filled.
pub fn draw_triangle(
    buffer: &mut Vec<u32>,
    dimensions: (usize, usize),
    x0: i64,
    y0: i64,
    x1: i64,
    y1: i64,
    x2: i64,
    y2: i64,
    c0: u32,
    c1: u32,
    c2: u32,
)
    requires
        old(buffer)@.len() == dimensions.0 * dimensions.1,
        dimensions.0 <= 0x100000,
        dimensions.1 <= 0x100000,
        -0x1_0000_0000_0000 <= x0 <= 0x1_0000_0000_0000,
        -0x1_0000_0000_0000 <= y0 <= 0x1_0000_0000_0000,
        -0x1_0000_0000_0000 <= x1 <= 0x1_0000_0000_0000,
        -0x1_0000_0000_0000 <= y1 <= 0x1_0000_0000_0000,
        -0x1_0000_0000_0000 <= x2 <= 0x1_0000_0000_0000,
        -0x1_0000_0000_0000 <= y2 <= 0x1_0000_0000_0000,
    ensures
        final(buffer)@ == draw_triangle_s(old(buffer)@, dimensions.0 as int, dimensions.1 as int,
            x0 as int, y0 as int, x1 as int, y1 as int, x2 as int, y2 as int, c0, c1, c2),
        final(buffer)@.len() == old(buffer)@.len(),
{
    draw_line(buffer, dimensions, x0, y0, x1, y1, c0, c1);
    draw_line(buffer, dimensions, x1, y1, x2, y2, c1, c2);
    draw_line(buffer, dimensions, x2, y2, x0, y0, c2, c0);
}

/// Sines and cosines of the three intrinsic Euler angles of a placement
/// (rotation about X, then Y, then Z), supplied by the caller as fixed-point
/// scalars.
#[derive(Clone, Copy, PartialEq, Eq, Structural, Debug)]
pub struct EulerAngles {
    pub sin_x: i64,
    pub cos_x: i64,
    pub sin_y: i64,
    pub cos_y: i64,
    pub sin_z: i64,
    pub cos_z: i64,
}

pub open spec fn rot_x_s(sin: int, cos: int) -> Matrix4 {
    Matrix4 {
        m00: FX_ONE,
        m01: 0,
        m02: 0,
        m03: 0,
        m10: 0,
        m11: cos as i64,
        m12: fx_neg_s(sin) as i64,
        m13: 0,
        m20: 0,
        m21: sin as i64,
        m22: cos as i64,
        m23: 0,
        m30: 0,
        m31: 0,
        m32: 0,
        m33: FX_ONE,
    }
}

pub open spec fn rot_y_s(sin: int, cos: int) -> Matrix4 {
    Matrix4 {
        m00: cos as i64,
        m01: 0,
        m02: sin as i64,
        m03: 0,
        m10: 0,
        m11: FX_ONE,
        m12: 0,
        m13: 0,
        m20: fx_neg_s(sin) as i64,
        m21: 0,
        m22: cos as i64,
        m23: 0,
        m30: 0,
        m31: 0,
        m32: 0,
        m33: FX_ONE,
    }
}

pub open spec fn rot_z_s(sin: int, cos: int) -> Matrix4 {
    Matrix4 {
        m00: cos as i64,
        m01: fx_neg_s(sin) as i64,
        m02: 0,
        m03: 0,
        m10: sin as i64,
        m11: cos as i64,
        m12: 0,
        m13: 0,
        m20: 0,
        m21: 0,
        m22: FX_ONE,
        m23: 0,
        m30: 0,
        m31: 0,
        m32: 0,
        m33: FX_ONE,
    }
}

/// The composed Euler rotation: X applied first, then Y, then Z.
#[verifier::opaque]
pub open spec fn euler_rotation_s(r: EulerAngles) -> Matrix4 {
    mat_mul_s(
        mat_mul_s(rot_z_s(r.sin_z as int, r.cos_z as int), rot_y_s(r.sin_y as int, r.cos_y as int)),
        rot_x_s(r.sin_x as int, r.cos_x as int),
    )
}

pub open spec fn translation_matrix_s(t: Vector4) -> Matrix4 {
    Matrix4 {
        m00: FX_ONE,
        m01: 0,
        m02: 0,
        m03: t.x,
        m10: 0,
        m11: FX_ONE,
        m12: 0,
        m13: t.y,
        m20: 0,
        m21: 0,
        m22: FX_ONE,
        m23: t.z,
        m30: 0,
        m31: 0,
        m32: 0,
        m33: FX_ONE,
    }
}

/// Nonuniform scaling that keeps the point `p` fixed: the diagonal carries
/// the scale, the last column `p - s∘p`.
pub open spec fn scaling_about_point_s(s: Vector4, p: Vector4) -> Matrix4 {
    Matrix4 {
        m00: s.x,
        m01: 0,
        m02: 0,
        m03: fx_sub_s(p.x as int, fx_mul_s(s.x as int, p.x as int)) as i64,
        m10: 0,
        m11: s.y,
        m12: 0,
        m13: fx_sub_s(p.y as int, fx_mul_s(s.y as int, p.y as int)) as i64,
        m20: 0,
        m21: 0,
        m22: s.z,
        m23: fx_sub_s(p.z as int, fx_mul_s(s.z as int, p.z as int)) as i64,
        m30: 0,
        m31: 0,
        m32: 0,
        m33: FX_ONE,
    }
}

/// The model matrix of a placement: translate, rotate, scale about the
/// placement position — composed as `T · R · S`.
#[verifier::opaque]
pub open spec fn model_matrix_s(position: Vector4, rotation: EulerAngles, scale: Vector4) -> Matrix4 {
    mat_mul_s(
        mat_mul_s(translation_matrix_s(position), euler_rotation_s(rotation)),
        scaling_about_point_s(scale, position),
    )
}

/// Screen coordinates of a local-space vertex: model, view, projection
/// applied in turn, perspective divide by clip w, then the viewport map
/// `x -> (x+1)·w/2`, `y -> (-y+1)·h/2` (row 0 is the top), truncated to
/// integer pixels. A zero clip w saturates and the coordinate falls outside
/// every viewport, as the original's infinite float coordinates did.
#[verifier::opaque]
pub open spec fn screen_coords_s(
    pm: Matrix4,
    vm: Matrix4,
    mm: Matrix4,
    vert: Vector4,
    w: int,
    h: int,
) -> (int, int) {
    let clip = mat_vec_mul_s(pm, mat_vec_mul_s(vm, mat_vec_mul_s(mm, vert)));
    let ndx = fx_div_s(clip.x as int, clip.w as int);
    let ndy = fx_div_s(clip.y as int, clip.w as int);
    let sx = fx_trunc_s(fx_div_s(fx_mul_s(fx_add_s(ndx, FX_ONE as int), 65536 * w),
        2 * FX_ONE));
    let sy = fx_trunc_s(fx_div_s(fx_mul_s(fx_add_s(fx_neg_s(ndy), FX_ONE as int), 65536 * h),
        2 * FX_ONE));
    (sx, sy)
}

/// The buffer after the optional background clear.
pub open spec fn clear_s(buf: Seq<u32>, background: Option<u32>) -> Seq<u32> {
    match background {
        Some(bg) => Seq::new(buf.len(), |i: int| bg),
        None => buf,
    }
}

/// Write one pixel if it lies inside the viewport; otherwise leave the
/// buffer unchanged.
pub open spec fn plot_pixel_s(buf: Seq<u32>, w: int, h: int, x: int, y: int, color: u32) -> Seq<u32> {
    if 0 <= x < w && 0 <= y < h {
        buf.update(y * w + x, color)
    } else {
        buf
    }
}

/// The buffer after plotting the first `n` vertices, each as a single pixel
/// of its own color.
pub open spec fn vertex_pass_s(
    buf: Seq<u32>,
    pm: Matrix4,
    vm: Matrix4,
    mm: Matrix4,
    verts: Seq<Vector4>,
    colors: Seq<u32>,
    w: int,
    h: int,
    n: int,
) -> Seq<u32>
    decreases n,
{
    if n <= 0 {
        buf
    } else {
        let prev = vertex_pass_s(buf, pm, vm, mm, verts, colors, w, h, n - 1);
        let sc = screen_coords_s(pm, vm, mm, verts[n - 1], w, h);
        plot_pixel_s(prev, w, h, sc.0, sc.1, colors[n - 1])
    }
}

/// The buffer after drawing the first `n` edges as interpolated lines.
pub open spec fn edge_pass_s(
    buf: Seq<u32>,
    pm: Matrix4,
    vm: Matrix4,
    mm: Matrix4,
    verts: Seq<Vector4>,
    colors: Seq<u32>,
    edges: Seq<(usize, usize)>,
    w: int,
    h: int,
    n: int,
) -> Seq<u32>
    decreases n,
{
    if n <= 0 {
        buf
    } else {
        let prev = edge_pass_s(buf, pm, vm, mm, verts, colors, edges, w, h, n - 1);
        let e = edges[n - 1];
        let s0 = screen_coords_s(pm, vm, mm, verts[e.0 as int], w, h);
        let s1 = screen_coords_s(pm, vm, mm, verts[e.1 as int], w, h);
        draw_line_s(prev, w, h, s0.0, s0.1, s1.0, s1.1, colors[e.0 as int], colors[e.1 as int])
    }
}

/// The buffer after drawing the first `n` triangles as edge outlines.
pub open spec fn triangle_pass_s(
    buf: Seq<u32>,
    pm: Matrix4,
    vm: Matrix4,
    mm: Matrix4,
    verts: Seq<Vector4>,
    colors: Seq<u32>,
    triangles: Seq<(usize, usize, usize)>,
    w: int,
    h: int,
    n: int,
) -> Seq<u32>
    decreases n,
{
    if n <= 0 {
        buf
    } else {
        let prev = triangle_pass_s(buf, pm, vm, mm, verts, colors, triangles, w, h, n - 1);
        let t = triangles[n - 1];
        let s0 = screen_coords_s(pm, vm, mm, verts[t.0 as int], w, h);
        let s1 = screen_coords_s(pm, vm, mm, verts[t.1 as int], w, h);
        let s2 = screen_coords_s(pm, vm, mm, verts[t.2 as int], w, h);
        draw_triangle_s(prev, w, h, s0.0, s0.1, s1.0, s1.1, s2.0, s2.1, colors[t.0 as int],
            colors[t.1 as int], colors[t.2 as int])
    }
}

/// Clear (if asked), then the vertex, edge and triangle passes over the
/// mesh as projected by the three given matrices.
pub open spec fn render_passes_s(
    buf: Seq<u32>,
    o: Object3D,
    w: int,
    h: int,
    pm: Matrix4,
    vm: Matrix4,
    mm: Matrix4,
    background: Option<u32>,
) -> Seq<u32> {
    let cleared = clear_s(buf, background);
    let after_vertices = vertex_pass_s(cleared, pm, vm, mm, o.vertices@, o.colors@, w, h,
        o.vertices@.len() as int);
    let after_edges = edge_pass_s(after_vertices, pm, vm, mm, o.vertices@, o.colors@, o.edges@, w,
        h, o.edges@.len() as int);
    triangle_pass_s(after_edges, pm, vm, mm, o.vertices@, o.colors@, o.triangles@, w, h,
        o.triangles@.len() as int)
}

/// The whole frame contribution of one object: the passes under the
/// projection, view and model matrices the placement and camera define.
pub open spec fn draw_object_s(
    buf: Seq<u32>,
    o: Object3D,
    w: int,
    h: int,
    c: Camera,
    tan_half_fov: int,
    position: Vector4,
    rotation: EulerAngles,
    scale: Vector4,
    background: Option<u32>,
) -> Seq<u32> {
    render_passes_s(buf, o, w, h,
        projection_matrix_s(c.near as int, c.far as int, aspect_ratio_s(w, h), tan_half_fov),
        view_matrix_s(c), model_matrix_s(position, rotation, scale), background)
}

fn euler_rotation(r: &EulerAngles) -> (m: Matrix4)
    ensures
        m == euler_rotation_s(*r),
{
    proof {
        reveal(euler_rotation_s);
    }
    let rx = Matrix4 {
        m00: FX_ONE,
        m01: 0,
        m02: 0,
        m03: 0,
        m10: 0,
        m11: r.cos_x,
        m12: fx_neg(r.sin_x),
        m13: 0,
        m20: 0,
        m21: r.sin_x,
        m22: r.cos_x,
        m23: 0,
        m30: 0,
        m31: 0,
        m32: 0,
        m33: FX_ONE,
    };
    let ry = Matrix4 {
        m00: r.cos_y,
        m01: 0,
        m02: r.sin_y,
        m03: 0,
        m10: 0,
        m11: FX_ONE,
        m12: 0,
        m13: 0,
        m20: fx_neg(r.sin_y),
        m21: 0,
        m22: r.cos_y,
        m23: 0,
        m30: 0,
        m31: 0,
        m32: 0,
        m33: FX_ONE,
    };
    let rz = Matrix4 {
        m00: r.cos_z,
        m01: fx_neg(r.sin_z),
        m02: 0,
        m03: 0,
        m10: r.sin_z,
        m11: r.cos_z,
        m12: 0,
        m13: 0,
        m20: 0,
        m21: 0,
        m22: FX_ONE,
        m23: 0,
        m30: 0,
        m31: 0,
        m32: 0,
        m33: FX_ONE,
    };
    rz.mat_mul(&ry).mat_mul(&rx)
}

fn model_matrix(position: &Vector4, rotation: &EulerAngles, scale: &Vector4) -> (m: Matrix4)
    ensures
        m == model_matrix_s(*position, *rotation, *scale),
{
    proof {
        reveal(model_matrix_s);
    }
    let translation = Matrix4 {
        m00: FX_ONE,
        m01: 0,
        m02: 0,
        m03: position.x,
        m10: 0,
        m11: FX_ONE,
        m12: 0,
        m13: position.y,
        m20: 0,
        m21: 0,
        m22: FX_ONE,
        m23: position.z,
        m30: 0,
        m31: 0,
        m32: 0,
        m33: FX_ONE,
    };
    let rotation_m = euler_rotation(rotation);
    let scaling = Matrix4 {
        m00: scale.x,
        m01: 0,
        m02: 0,
        m03: fx_sub(position.x, fx_mul(scale.x, position.x)),
        m10: 0,
        m11: scale.y,
        m12: 0,
        m13: fx_sub(position.y, fx_mul(scale.y, position.y)),
        m20: 0,
        m21: 0,
        m22: scale.z,
        m23: fx_sub(position.z, fx_mul(scale.z, position.z)),
        m30: 0,
        m31: 0,
        m32: 0,
        m33: FX_ONE,
    };
    translation.mat_mul(&rotation_m).mat_mul(&scaling)
}

fn project_to_screen(pm: &Matrix4, vm: &Matrix4, mm: &Matrix4, vert: &Vector4, wi: i64, hi: i64) -> (r: (
    i64,
    i64,
))
    requires
        0 <= wi <= 0x100000,
        0 <= hi <= 0x100000,
    ensures
        r.0 == screen_coords_s(*pm, *vm, *mm, *vert, wi as int, hi as int).0,
        r.1 == screen_coords_s(*pm, *vm, *mm, *vert, wi as int, hi as int).1,
        -0x1_0000_0000_0000 <= r.0 <= 0x1_0000_0000_0000,
        -0x1_0000_0000_0000 <= r.1 <= 0x1_0000_0000_0000,
{
    proof {
        reveal(screen_coords_s);
    }
    let clip = pm.transform(&vm.transform(&mm.transform(vert)));
    let ndx = fx_div(clip.x, clip.w);
    let ndy = fx_div(clip.y, clip.w);
    let sx = fx_trunc(fx_div(fx_mul(fx_add(ndx, FX_ONE), wi * 65536), 2 * FX_ONE));
    let sy = fx_trunc(fx_div(fx_mul(fx_add(fx_neg(ndy), FX_ONE), hi * 65536), 2 * FX_ONE));
    (sx, sy)
}

/// Project every vertex once, then draw vertices, edges and triangles in
/// that order, under the three given matrices.
#[verifier::rlimit(100)]
fn render_passes(
    buffer: &mut Vec<u32>,
    object: &Object3D,
    dimensions: (usize, usize),
    pm: &Matrix4,
    vm: &Matrix4,
    mm: &Matrix4,
    background_color: Option<u32>,
)
    requires
        old(buffer)@.len() == dimensions.0 * dimensions.1,
        dimensions.0 <= 0x100000,
        dimensions.1 <= 0x100000,
        obj_wf(*object),
    ensures
        final(buffer)@ == render_passes_s(old(buffer)@, *object, dimensions.0 as int,
            dimensions.1 as int, *pm, *vm, *mm, background_color),
{
    let w: usize = dimensions.0;
    let h: usize = dimensions.1;
    let wi: i64 = w as i64;
    let hi: i64 = h as i64;
    let buf_len: usize = buffer.len();
    proof {
        assert(buf_len == buffer@.len());
    }
    let pm = *pm;
    let vm = *vm;
    let mm = *mm;
    let ghost buf0 = buffer@;

    let nverts: usize = object.vertices.len();
    let mut screens: Vec<(i64, i64)> = Vec::new();
    let mut i: usize = 0;
    while i < nverts
        invariant
            nverts == object.vertices@.len(),
            0 <= wi <= 0x100000,
            0 <= hi <= 0x100000,
            i <= nverts,
            screens@.len() == i,
            forall|j: int|
                0 <= j < i ==> (#[trigger] screens@[j]).0 == screen_coords_s(pm, vm, mm,
                    object.vertices@[j], wi as int, hi as int).0 && screens@[j].1
                    == screen_coords_s(pm, vm, mm, object.vertices@[j], wi as int, hi as int).1
                    && -0x1_0000_0000_0000 <= screens@[j].0 <= 0x1_0000_0000_0000
                    && -0x1_0000_0000_0000 <= screens@[j].1 <= 0x1_0000_0000_0000,
        decreases nverts - i,
    {
        let s = project_to_screen(&pm, &vm, &mm, &object.vertices[i], wi, hi);
        screens.push(s);
        i = i + 1;
    }

    if let Some(bg) = background_color {
        let mut k: usize = 0;
        while k < buf_len
            invariant
                buffer@.len() == buf_len,
                k <= buf_len,
                forall|j: int| 0 <= j < k ==> buffer@[j] == bg,
            decreases buf_len - k,
        {
            buffer.set(k, bg);
            k = k + 1;
        }
        proof {
            assert(buffer@ =~= clear_s(buf0, background_color));
        }
    }
    let ghost cleared = buffer@;
    proof {
        assert(cleared == clear_s(buf0, background_color));
    }

    let mut i: usize = 0;
    while i < nverts
        invariant
            nverts == object.vertices@.len(),
            object.colors@.len() == object.vertices@.len(),
            w == dimensions.0,
            h == dimensions.1,
            wi == w,
            hi == h,
            w <= 0x100000,
            h <= 0x100000,
            w * h <= usize::MAX,
            buffer@.len() == w * h,
            i <= nverts,
            screens@.len() == nverts,
            forall|j: int|
                0 <= j < nverts ==> (#[trigger] screens@[j]).0 == screen_coords_s(pm, vm, mm,
                    object.vertices@[j], wi as int, hi as int).0 && screens@[j].1
                    == screen_coords_s(pm, vm, mm, object.vertices@[j], wi as int, hi as int).1
                    && -0x1_0000_0000_0000 <= screens@[j].0 <= 0x1_0000_0000_0000
                    && -0x1_0000_0000_0000 <= screens@[j].1 <= 0x1_0000_0000_0000,
            buffer@ == vertex_pass_s(cleared, pm, vm, mm, object.vertices@, object.colors@,
                w as int, h as int, i as int),
        decreases nverts - i,
    {
        let ghost pre = buffer@;
        let s = screens[i];
        if s.0 >= 0 && s.1 >= 0 && s.0 < wi && s.1 < hi {
            proof {
                assert((s.1 as int) * (w as int) + (s.0 as int) < (w as int) * (h as int))
                    by (nonlinear_arith)
                    requires
                        0 <= (s.0 as int) < (w as int),
                        0 <= (s.1 as int) < (h as int),
                ;
                assert((s.1 as usize as int) * (w as int) == (s.1 as int) * (w as int));
            }
            let idx: usize = (s.1 as usize) * w + (s.0 as usize);
            buffer.set(idx, object.colors[i]);
        }
        proof {
            assert(buffer@ == plot_pixel_s(pre, w as int, h as int, screens@[i as int].0 as int,
                screens@[i as int].1 as int, object.colors@[i as int]));
        }
        i = i + 1;
    }
    let ghost after_vertices = buffer@;

    let nedges: usize = object.edges.len();
    let mut i: usize = 0;
    while i < nedges
        invariant
            nverts == object.vertices@.len(),
            nedges == object.edges@.len(),
            obj_wf(*object),
            w == dimensions.0,
            h == dimensions.1,
            wi == w,
            hi == h,
            w <= 0x100000,
            h <= 0x100000,
            buffer@.len() == w * h,
            i <= nedges,
            screens@.len() == nverts,
            forall|j: int|
                0 <= j < nverts ==> (#[trigger] screens@[j]).0 == screen_coords_s(pm, vm, mm,
                    object.vertices@[j], wi as int, hi as int).0 && screens@[j].1
                    == screen_coords_s(pm, vm, mm, object.vertices@[j], wi as int, hi as int).1
                    && -0x1_0000_0000_0000 <= screens@[j].0 <= 0x1_0000_0000_0000
                    && -0x1_0000_0000_0000 <= screens@[j].1 <= 0x1_0000_0000_0000,
            buffer@ == edge_pass_s(after_vertices, pm, vm, mm, object.vertices@, object.colors@,
                object.edges@, w as int, h as int, i as int),
        decreases nedges - i,
    {
        let e = object.edges[i];
        let s0 = screens[e.0];
        let s1 = screens[e.1];
        draw_line(buffer, dimensions, s0.0, s0.1, s1.0, s1.1, object.colors[e.0],
            object.colors[e.1]);
        i = i + 1;
    }
    let ghost after_edges = buffer@;

    let ntris: usize = object.triangles.len();
    let mut i: usize = 0;
    while i < ntris
        invariant
            nverts == object.vertices@.len(),
            ntris == object.triangles@.len(),
            obj_wf(*object),
            w == dimensions.0,
            h == dimensions.1,
            wi == w,
            hi == h,
            w <= 0x100000,
            h <= 0x100000,
            buffer@.len() == w * h,
            i <= ntris,
            screens@.len() == nverts,
            forall|j: int|
                0 <= j < nverts ==> (#[trigger] screens@[j]).0 == screen_coords_s(pm, vm, mm,
                    object.vertices@[j], wi as int, hi as int).0 && screens@[j].1
                    == screen_coords_s(pm, vm, mm, object.vertices@[j], wi as int, hi as int).1
                    && -0x1_0000_0000_0000 <= screens@[j].0 <= 0x1_0000_0000_0000
                    && -0x1_0000_0000_0000 <= screens@[j].1 <= 0x1_0000_0000_0000,
            buffer@ == triangle_pass_s(after_edges, pm, vm, mm, object.vertices@, object.colors@,
                object.triangles@, w as int, h as int, i as int),
        decreases ntris - i,
    {
        let t = object.triangles[i];
        let s0 = screens[t.0];
        let s1 = screens[t.1];
        let s2 = screens[t.2];
        draw_triangle(buffer, dimensions, s0.0, s0.1, s1.0, s1.1, s2.0, s2.1,
            object.colors[t.0], object.colors[t.1], object.colors[t.2]);
        i = i + 1;
    }
}

/// Render one object into the pixel buffer: build the projection, view and
/// model matrices from the camera and the placement, then run the vertex,
/// edge and triangle passes. `tan_half_fov` is tan(fov/2), fov in radians,
/// computed by the caller from `camera.fov`.
pub fn draw_object(
    buffer: &mut Vec<u32>,
    object: &Object3D,
    dimensions: (usize, usize),
    camera: &Camera,
    tan_half_fov: i64,
    position: Vector4,
    rotation: &EulerAngles,
    scale: Vector4,
    background_color: Option<u32>,
)
    requires
        old(buffer)@.len() == dimensions.0 * dimensions.1,
        dimensions.0 <= 0x100000,
        dimensions.1 <= 0x100000,
        obj_wf(*object),
    ensures
        final(buffer)@ == draw_object_s(old(buffer)@, *object, dimensions.0 as int,
            dimensions.1 as int, *camera, tan_half_fov as int, position, *rotation, scale,
            background_color),
{
    let wi: i64 = dimensions.0 as i64;
    let hi: i64 = dimensions.1 as i64;
    let aspect_ratio: i64 = fx_div(wi * 65536, hi * 65536);
    let pm = camera.get_projection_matrix(aspect_ratio, tan_half_fov);
    let vm = camera.get_view_matrix();
    let mm = model_matrix(&position, rotation, &scale);
    render_passes(buffer, object, dimensions, &pm, &vm, &mm, background_color);
}

} // verus!
