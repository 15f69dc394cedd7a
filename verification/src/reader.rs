//! Primitive mesh generators whose geometry is exact in fixed point: the
//! unit cube and the subdivided plane. Sphere generation and mesh-file
//! parsing need trigonometry and file reading, so they live with the
//! unverified collaborators.

use vstd::prelude::*;
use crate::fixed::FX_ONE;
use crate::algebra::Vector4;
use crate::render::Object3D;
use crate::render::obj_wf;

verus! {

pub open spec fn unit_cube_vertices_s() -> Seq<Vector4> {
    let neg_one: i64 = (-FX_ONE) as i64;
    seq![
        Vector4 { x: neg_one, y: neg_one, z: neg_one, w: FX_ONE },
        Vector4 { x: FX_ONE, y: neg_one, z: neg_one, w: FX_ONE },
        Vector4 { x: FX_ONE, y: FX_ONE, z: neg_one, w: FX_ONE },
        Vector4 { x: neg_one, y: FX_ONE, z: neg_one, w: FX_ONE },
        Vector4 { x: neg_one, y: neg_one, z: FX_ONE, w: FX_ONE },
        Vector4 { x: FX_ONE, y: neg_one, z: FX_ONE, w: FX_ONE },
        Vector4 { x: FX_ONE, y: FX_ONE, z: FX_ONE, w: FX_ONE },
        Vector4 { x: neg_one, y: FX_ONE, z: FX_ONE, w: FX_ONE },
    ]
}

pub open spec fn unit_cube_triangles_s() -> Seq<(usize, usize, usize)> {
    seq![
        (0usize, 1usize, 2usize),
        (2usize, 3usize, 0usize),
        (4usize, 5usize, 6usize),
        (6usize, 7usize, 4usize),
        (0usize, 4usize, 7usize),
        (7usize, 3usize, 0usize),
        (1usize, 5usize, 6usize),
        (6usize, 2usize, 1usize),
        (2usize, 6usize, 7usize),
        (7usize, 3usize, 2usize),
        (0usize, 4usize, 5usize),
        (5usize, 1usize, 0usize),
    ]
}

/// The unit cube: eight corner vertices at coordinates plus and minus one,
/// every vertex in the given color, twelve triangles and no edges.
pub fn unit_cube(color: u32) -> (r: Object3D)
    ensures
        r.vertices@ == unit_cube_vertices_s(),
        r.colors@.len() == 8,
        forall|i: int| 0 <= i < 8 ==> r.colors@[i] == color,
        r.edges@.len() == 0,
        r.triangles@ == unit_cube_triangles_s(),
        obj_wf(r),
{
    let mut vertices: Vec<Vector4> = Vec::new();
    vertices.push(Vector4 { x: -FX_ONE, y: -FX_ONE, z: -FX_ONE, w: FX_ONE });
    vertices.push(Vector4 { x: FX_ONE, y: -FX_ONE, z: -FX_ONE, w: FX_ONE });
    vertices.push(Vector4 { x: FX_ONE, y: FX_ONE, z: -FX_ONE, w: FX_ONE });
    vertices.push(Vector4 { x: -FX_ONE, y: FX_ONE, z: -FX_ONE, w: FX_ONE });
    vertices.push(Vector4 { x: -FX_ONE, y: -FX_ONE, z: FX_ONE, w: FX_ONE });
    vertices.push(Vector4 { x: FX_ONE, y: -FX_ONE, z: FX_ONE, w: FX_ONE });
    vertices.push(Vector4 { x: FX_ONE, y: FX_ONE, z: FX_ONE, w: FX_ONE });
    vertices.push(Vector4 { x: -FX_ONE, y: FX_ONE, z: FX_ONE, w: FX_ONE });
    let mut colors: Vec<u32> = Vec::new();
    let mut i: usize = 0;
    while i < 8
        invariant
            colors@.len() == i,
            i <= 8,
            forall|j: int| 0 <= j < i ==> colors@[j] == color,
        decreases 8 - i,
    {
        colors.push(color);
        i = i + 1;
    }
    let mut triangles: Vec<(usize, usize, usize)> = Vec::new();
    triangles.push((0, 1, 2));
    triangles.push((2, 3, 0));
    triangles.push((4, 5, 6));
    triangles.push((6, 7, 4));
    triangles.push((0, 4, 7));
    triangles.push((7, 3, 0));
    triangles.push((1, 5, 6));
    triangles.push((6, 2, 1));
    triangles.push((2, 6, 7));
    triangles.push((7, 3, 2));
    triangles.push((0, 4, 5));
    triangles.push((5, 1, 0));
    let r = Object3D::new(vertices, colors, Vec::new(), triangles);
    proof {
        assert(r.vertices@ =~= unit_cube_vertices_s());
        assert(r.triangles@ =~= unit_cube_triangles_s());
    }
    r
}

/// The vertex of the subdivided plane at grid cell (x, z): the grid indices
/// recentred by half the division count, y = 0, w = 1.
pub open spec fn plane_vertex_s(x: int, z: int, xd: int, zd: int) -> Vector4 {
    Vector4 {
        x: (65536 * x - 32768 * xd) as i64,
        y: 0,
        z: (65536 * z - 32768 * zd) as i64,
        w: FX_ONE,
    }
}

/// A flat plane subdivided into a grid: one vertex per grid cell (x outer,
/// z inner), all in one color, two triangles per interior cell and no edges.
pub fn unit_plane(x_division: usize, z_division: usize, color: u32) -> (r: Object3D)
    requires
        1 <= x_division <= 0x100000,
        1 <= z_division <= 0x100000,
        x_division * z_division <= usize::MAX,
    ensures
        r.vertices@.len() == x_division * z_division,
        forall|x: int, z: int|
            0 <= x < x_division && 0 <= z < z_division ==> r.vertices@[x * z_division + z]
                == plane_vertex_s(x, z, x_division as int, z_division as int),
        r.colors@.len() == x_division * z_division,
        forall|i: int| 0 <= i < r.colors@.len() ==> r.colors@[i] == color,
        r.edges@.len() == 0,
        r.triangles@.len() == 2 * ((x_division - 1) * (z_division - 1)),
        forall|x: int, z: int|
            #![trigger r.triangles@[2 * (x * (z_division - 1) + z)]]
            0 <= x < x_division - 1 && 0 <= z < z_division - 1 ==> {
                let base = 2 * (x * (z_division - 1) + z);
                let a = x * z_division + z;
                let c = (x + 1) * z_division + z + 1;
                r.triangles@[base] == ((a as usize), ((a + 1) as usize), (c as usize))
                    && r.triangles@[base + 1] == ((a as usize), (c as usize), ((c - 1) as usize))
            },
        obj_wf(r),
{
    let xd: usize = x_division;
    let zd: usize = z_division;
    let mut vertices: Vec<Vector4> = Vec::new();
    let mut colors: Vec<u32> = Vec::new();
    let mut x: usize = 0;
    while x < xd
        invariant
            1 <= xd <= 0x100000,
            1 <= zd <= 0x100000,
            xd * zd <= usize::MAX,
            x <= xd,
            vertices@.len() == x * zd,
            colors@.len() == x * zd,
            forall|i: int, j: int|
                0 <= i < x && 0 <= j < zd ==> vertices@[i * zd + j] == plane_vertex_s(i, j,
                    xd as int, zd as int),
            forall|i: int| 0 <= i < colors@.len() ==> colors@[i] == color,
        decreases xd - x,
    {
        proof {
            assert((x as int) * (zd as int) + (zd as int) <= (xd as int) * (zd as int))
                by (nonlinear_arith)
                requires
                    0 <= (x as int) < (xd as int),
                    0 < (zd as int),
            ;
        }
        let mut z: usize = 0;
        while z < zd
            invariant
                1 <= xd <= 0x100000,
                1 <= zd <= 0x100000,
                xd * zd <= usize::MAX,
                x < xd,
                z <= zd,
                (x as int) * (zd as int) + (zd as int) <= (xd as int) * (zd as int),
                vertices@.len() == x * zd + z,
                colors@.len() == x * zd + z,
                forall|i: int, j: int|
                    0 <= i < x && 0 <= j < zd ==> vertices@[i * zd + j] == plane_vertex_s(i, j,
                        xd as int, zd as int),
                forall|j: int|
                    0 <= j < z ==> vertices@[(x as int) * zd + j] == plane_vertex_s(x as int, j,
                        xd as int, zd as int),
                forall|i: int| 0 <= i < colors@.len() ==> colors@[i] == color,
            decreases zd - z,
        {
            let vx: i64 = 65536 * (x as i64) - 32768 * (xd as i64);
            let vz: i64 = 65536 * (z as i64) - 32768 * (zd as i64);
            vertices.push(Vector4 { x: vx, y: 0, z: vz, w: FX_ONE });
            colors.push(color);
            proof {
                assert forall|i: int, j: int|
                    0 <= i < x && 0 <= j < zd implies #[trigger] vertices@[i * zd + j]
                    == plane_vertex_s(i, j, xd as int, zd as int) by {
                    assert(i * zd + j < (x as int) * (zd as int)) by (nonlinear_arith)
                        requires
                            0 <= i < x,
                            0 <= j < zd,
                            0 < zd,
                    ;
                }
            }
            z = z + 1;
        }
        proof {
            assert(((x as int) + 1) * (zd as int) == (x as int) * (zd as int) + (zd as int))
                by (nonlinear_arith);
            assert forall|i: int, j: int|
                0 <= i < x + 1 && 0 <= j < zd implies #[trigger] vertices@[i * zd + j]
                == plane_vertex_s(i, j, xd as int, zd as int) by {
                if i == x {
                    assert(i * (zd as int) == (x as int) * (zd as int)) by (nonlinear_arith)
                        requires
                            i == x as int,
                    ;
                }
            }
        }
        x = x + 1;
    }
    let mut triangles: Vec<(usize, usize, usize)> = Vec::new();
    let mut x: usize = 0;
    while x < xd - 1
        invariant
            1 <= xd <= 0x100000,
            1 <= zd <= 0x100000,
            xd * zd <= usize::MAX,
            x <= xd - 1,
            triangles@.len() == 2 * (x * (zd - 1)),
            forall|i: int, j: int|
                #![trigger triangles@[2 * (i * (zd - 1) + j)]]
                0 <= i < x && 0 <= j < zd - 1 ==> {
                    let base = 2 * (i * (zd - 1) + j);
                    let a = i * zd + j;
                    let c = (i + 1) * zd + j + 1;
                    triangles@[base] == ((a as usize), ((a + 1) as usize), (c as usize))
                        && triangles@[base + 1] == ((a as usize), (c as usize), ((c
                        - 1) as usize))
                },
            forall|k: int|
                0 <= k < triangles@.len() ==> (#[trigger] triangles@[k]).0 < xd * zd
                    && triangles@[k].1 < xd * zd && triangles@[k].2 < xd * zd,
        decreases xd - 1 - x,
    {
        proof {
            assert((x as int) * ((zd as int) - 1) + ((zd as int) - 1) <= ((xd as int) - 1) * ((
            zd as int) - 1)) by (nonlinear_arith)
                requires
                    0 <= (x as int) < (xd as int) - 1,
                    1 <= (zd as int),
            ;
            assert(((xd as int) - 1) * ((zd as int) - 1) <= (xd as int) * (zd as int))
                by (nonlinear_arith)
                requires
                    1 <= (xd as int),
                    1 <= (zd as int),
            ;
        }
        let mut z: usize = 0;
        while z < zd - 1
            invariant
                1 <= xd <= 0x100000,
                1 <= zd <= 0x100000,
                xd * zd <= usize::MAX,
                x < xd - 1,
                z <= zd - 1,
                (x as int) * ((zd as int) - 1) + ((zd as int) - 1) <= ((xd as int) - 1) * ((
                zd as int) - 1),
                ((xd as int) - 1) * ((zd as int) - 1) <= (xd as int) * (zd as int),
                triangles@.len() == 2 * (x * (zd - 1)) + 2 * z,
                forall|i: int, j: int|
                    #![trigger triangles@[2 * (i * (zd - 1) + j)]]
                    0 <= i < x && 0 <= j < zd - 1 ==> {
                        let base = 2 * (i * (zd - 1) + j);
                        let a = i * zd + j;
                        let c = (i + 1) * zd + j + 1;
                        triangles@[base] == ((a as usize), ((a + 1) as usize), (
                        c as usize)) && triangles@[base + 1] == ((a as usize), (c as usize), ((c
                            - 1) as usize))
                    },
                forall|j: int|
                    #![trigger triangles@[2 * ((x as int) * ((zd as int) - 1) + j)]]
                    0 <= j < z ==> {
                        let base = 2 * ((x as int) * ((zd as int) - 1) + j);
                        let a = (x as int) * zd + j;
                        let c = ((x as int) + 1) * zd + j + 1;
                        triangles@[base] == ((a as usize), ((a + 1) as usize), (
                        c as usize)) && triangles@[base + 1] == ((a as usize), (c as usize), ((c
                            - 1) as usize))
                    },
                forall|k: int|
                    0 <= k < triangles@.len() ==> (#[trigger] triangles@[k]).0 < xd * zd
                        && triangles@[k].1 < xd * zd && triangles@[k].2 < xd * zd,
            decreases zd - 1 - z,
        {
            proof {
                assert(((x as int) + 1) * (zd as int) + (z as int) + 1 < (xd as int) * (zd as int)
                    && (x as int) * (zd as int) + (z as int) + 1 < (xd as int) * (zd as int)
                    && ((x as int) + 1) * (zd as int) >= (x as int) * (zd as int))
                    by (nonlinear_arith)
                    requires
                        0 <= (x as int) < (xd as int) - 1,
                        0 <= (z as int) < (zd as int) - 1,
                        1 <= (zd as int),
                ;
                assert(2 * ((x as int) * ((zd as int) - 1) + (z as int)) + 2 <= 2 * (((
                xd as int) - 1) * ((zd as int) - 1))) by (nonlinear_arith)
                    requires
                        0 <= (x as int) < (xd as int) - 1,
                        0 <= (z as int) < (zd as int) - 1,
                ;
            }
            let a: usize = x * zd + z;
            let b: usize = x * zd + z + 1;
            let c: usize = (x + 1) * zd + z + 1;
            let d: usize = (x + 1) * zd + z;
            let ghost tpre = triangles@;
            triangles.push((a, b, c));
            triangles.push((a, c, d));
            proof {
                assert forall|i: int, j: int|
                    #![trigger triangles@[2 * (i * (zd - 1) + j)]]
                    0 <= i < x && 0 <= j < zd - 1 implies {
                    let base = 2 * (i * (zd - 1) + j);
                    let a2 = i * zd + j;
                    let c2 = (i + 1) * zd + j + 1;
                    triangles@[base] == ((a2 as usize), ((a2 + 1) as usize), (c2 as usize))
                        && triangles@[base + 1] == ((a2 as usize), (c2 as usize), ((c2
                        - 1) as usize))
                } by {
                    assert(2 * (i * ((zd as int) - 1) + j) + 1 < 2 * ((x as int) * ((
                    zd as int) - 1))) by (nonlinear_arith)
                        requires
                            0 <= i < x as int,
                            0 <= j < (zd as int) - 1,
                            1 <= (zd as int),
                    ;
                    assert(tpre[2 * (i * (zd - 1) + j)] == triangles@[2 * (i * (zd - 1) + j)]);
                    assert(tpre[2 * (i * (zd - 1) + j) + 1] == triangles@[2 * (i * (zd - 1) + j)
                        + 1]);
                }
            }
            z = z + 1;
        }
        proof {
            assert(((x as int) + 1) * ((zd as int) - 1) == (x as int) * ((zd as int) - 1) + ((
            zd as int) - 1)) by (nonlinear_arith);
            assert forall|i: int, j: int|
                #![trigger triangles@[2 * (i * (zd - 1) + j)]]
                0 <= i < x + 1 && 0 <= j < zd - 1 implies {
                let base = 2 * (i * (zd - 1) + j);
                let a = i * zd + j;
                let c = (i + 1) * zd + j + 1;
                triangles@[base] == ((a as usize), ((a + 1) as usize), (c as usize))
                    && triangles@[base + 1] == ((a as usize), (c as usize), ((c - 1) as usize))
            } by {
                if i == x {
                    assert(i * ((zd as int) - 1) == (x as int) * ((zd as int) - 1)
                        && i * (zd as int) == (x as int) * (zd as int) && (i + 1) * (zd as int)
                        == ((x as int) + 1) * (zd as int)) by (nonlinear_arith)
                        requires
                            i == x as int,
                    ;
                    assert(triangles@[2 * ((x as int) * ((zd as int) - 1) + j)] == triangles@[2
                        * (i * (zd - 1) + j)]);
                    assert(triangles@[2 * ((x as int) * ((zd as int) - 1) + j) + 1]
                        == triangles@[2 * (i * (zd - 1) + j) + 1]);
                }
            }
            assert(forall|i: int, j: int|
                #![trigger triangles@[2 * (i * (zd - 1) + j)]]
                0 <= i < x + 1 && 0 <= j < zd - 1 ==> {
                    let base = 2 * (i * (zd - 1) + j);
                    let a = i * zd + j;
                    let c = (i + 1) * zd + j + 1;
                    triangles@[base] == ((a as usize), ((a + 1) as usize), (c as usize))
                        && triangles@[base + 1] == ((a as usize), (c as usize), ((c
                        - 1) as usize))
                });
        }
        x = x + 1;
    }
    let r = Object3D::new(vertices, colors, Vec::new(), triangles);
    proof {
        assert(2 * ((x as int) * ((zd as int) - 1)) == 2 * (((xd as int) - 1) * ((zd as int) - 1)))
            by (nonlinear_arith)
            requires
                (x as int) == (xd as int) - 1,
        ;
    }
    r
}

} // verus!
