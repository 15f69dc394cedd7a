use wireframe::algebra::Vector4;
use wireframe::fixed::{FX_MAX, FX_MIN, FX_ONE};
use wireframe::modifiers::{
    buffer_to_image_buffer_rgb, buffer_to_image_buffer_rgba, colorize_plane, displace_plane,
    rgba_to_u32,
};
use wireframe::reader::{unit_cube, unit_plane};
use wireframe::render::{draw_object, Camera, EulerAngles, Object3D};

fn fx(v: f64) -> i64 {
    (v * 65536.0).round() as i64
}

fn no_rotation() -> EulerAngles {
    EulerAngles { sin_x: 0, cos_x: FX_ONE, sin_y: 0, cos_y: FX_ONE, sin_z: 0, cos_z: FX_ONE }
}

fn test_camera() -> Camera {
    Camera {
        fov: fx(90.0),
        near: fx(0.1),
        far: fx(1000.0),
        up: Vector4 { x: 0, y: FX_ONE, z: 0, w: 0 },
        position: Vector4 { x: 0, y: 0, z: -20 * FX_ONE, w: FX_ONE },
        look_at: Vector4 { x: 0, y: 0, z: 0, w: FX_ONE },
    }
}

// Saturating fixed-point helpers mirroring the documented arithmetic, kept
// separate from the library so the expected coordinates are computed
// independently.
fn efx_clamp(v: i128) -> i64 {
    if v > FX_MAX as i128 {
        FX_MAX
    } else if v < FX_MIN as i128 {
        FX_MIN
    } else {
        v as i64
    }
}

fn efx_mul(a: i64, b: i64) -> i64 {
    efx_clamp((a as i128) * (b as i128) / 65536)
}

fn efx_div(a: i64, b: i64) -> i64 {
    if b == 0 {
        if a >= 0 { FX_MAX } else { FX_MIN }
    } else {
        efx_clamp((a as i128) * 65536 / (b as i128))
    }
}

fn efx_add(a: i64, b: i64) -> i64 {
    efx_clamp(a as i128 + b as i128)
}

#[test]
fn single_center_vertex_sets_exactly_the_center_pixel() {
    let dims = (100usize, 100usize);
    let mut buffer = vec![0xDEADBEu32; dims.0 * dims.1];
    let mesh = Object3D {
        vertices: vec![Vector4 { x: 0, y: 0, z: 0, w: FX_ONE }],
        colors: vec![0xFF00EC],
        edges: vec![],
        triangles: vec![],
    };
    let camera = test_camera();
    let tan_half_fov = fx((45.0f64).to_radians().tan());
    draw_object(
        &mut buffer,
        &mesh,
        dims,
        &camera,
        tan_half_fov,
        Vector4 { x: 0, y: 0, z: 0, w: 0 },
        &no_rotation(),
        Vector4 { x: FX_ONE, y: FX_ONE, z: FX_ONE, w: 0 },
        Some(0x000000),
    );
    for y in 0..100 {
        for x in 0..100 {
            let expected = if (x, y) == (50, 50) { 0xFF00EC } else { 0x000000 };
            assert_eq!(buffer[y * 100 + x], expected, "pixel ({}, {})", x, y);
        }
    }
}

#[test]
fn background_clear_with_empty_mesh_blanks_every_pixel() {
    let dims = (32usize, 16usize);
    let mut buffer = vec![0xFFFFFFu32; dims.0 * dims.1];
    let mesh = Object3D { vertices: vec![], colors: vec![], edges: vec![], triangles: vec![] };
    let camera = test_camera();
    draw_object(
        &mut buffer,
        &mesh,
        dims,
        &camera,
        FX_ONE,
        Vector4 { x: 0, y: 0, z: 0, w: 0 },
        &no_rotation(),
        Vector4 { x: FX_ONE, y: FX_ONE, z: FX_ONE, w: 0 },
        Some(0x000000),
    );
    assert!(buffer.iter().all(|&p| p == 0));
}

#[test]
fn no_background_keeps_the_previous_frame() {
    let dims = (8usize, 8usize);
    let mut buffer = vec![0x424242u32; dims.0 * dims.1];
    let mesh = Object3D { vertices: vec![], colors: vec![], edges: vec![], triangles: vec![] };
    let camera = test_camera();
    draw_object(
        &mut buffer,
        &mesh,
        dims,
        &camera,
        FX_ONE,
        Vector4 { x: 0, y: 0, z: 0, w: 0 },
        &no_rotation(),
        Vector4 { x: FX_ONE, y: FX_ONE, z: FX_ONE, w: 0 },
        None,
    );
    assert!(buffer.iter().all(|&p| p == 0x424242));
}

#[test]
fn projected_vertices_land_where_the_documented_formulas_say() {
    let dims = (100usize, 100usize);
    let mut buffer = vec![0u32; dims.0 * dims.1];
    let mesh = unit_cube(0xFFFFFF);
    let vertices: Vec<Vector4> = mesh.vertices.clone();
    let mesh = Object3D {
        vertices: mesh.vertices,
        colors: mesh.colors,
        edges: vec![],
        triangles: vec![],
    };
    let camera = test_camera();
    let tan_half_fov = fx((45.0f64).to_radians().tan());
    draw_object(
        &mut buffer,
        &mesh,
        dims,
        &camera,
        tan_half_fov,
        Vector4 { x: 0, y: 0, z: 0, w: 0 },
        &no_rotation(),
        Vector4 { x: FX_ONE, y: FX_ONE, z: FX_ONE, w: 0 },
        Some(0x000000),
    );

    // Independently recompute each screen coordinate. The placement is the
    // identity, so the model stage leaves vertices alone; the camera looks
    // down +z from (0,0,-20) with its basis axes on the world axes, so view
    // space is exactly (x, y, z+20).
    let pm = camera.get_projection_matrix(FX_ONE, tan_half_fov);
    let mut plotted = 0usize;
    for v in &vertices {
        let view = Vector4 { x: v.x, y: v.y, z: efx_add(v.z, 20 * FX_ONE), w: FX_ONE };
        let cx = efx_mul(pm.m00, view.x);
        let cy = efx_mul(pm.m11, view.y);
        let cw = efx_mul(-FX_ONE, view.z);
        let ndx = efx_div(cx, cw);
        let ndy = efx_div(cy, cw);
        let sx = efx_div(efx_mul(efx_add(ndx, FX_ONE), 100 * FX_ONE), 2 * FX_ONE) / 65536;
        let sy = efx_div(efx_mul(efx_add(-ndy, FX_ONE), 100 * FX_ONE), 2 * FX_ONE) / 65536;
        if sx >= 0 && sy >= 0 && sx < 100 && sy < 100 {
            assert_eq!(
                buffer[(sy as usize) * 100 + sx as usize],
                0xFFFFFF,
                "vertex ({}, {}, {})",
                v.x,
                v.y,
                v.z
            );
            plotted += 1;
        }
    }
    assert_eq!(plotted, 8, "all cube corners are on screen");
}

#[test]
fn vertex_on_the_camera_plane_is_skipped() {
    // clip w is zero for a vertex at the camera position; the divide
    // saturates and the bounds check rejects the coordinate, so the pixel
    // buffer stays clear, as the original's infinite float coordinates did
    let dims = (10usize, 10usize);
    let mut buffer = vec![0u32; dims.0 * dims.1];
    let camera = test_camera();
    let mesh = Object3D {
        vertices: vec![camera.position],
        colors: vec![0xFFFFFF],
        edges: vec![],
        triangles: vec![],
    };
    draw_object(
        &mut buffer,
        &mesh,
        dims,
        &camera,
        FX_ONE,
        Vector4 { x: 0, y: 0, z: 0, w: 0 },
        &no_rotation(),
        Vector4 { x: FX_ONE, y: FX_ONE, z: FX_ONE, w: 0 },
        Some(0x000000),
    );
    assert!(buffer.iter().all(|&p| p == 0));
}

#[test]
fn unit_cube_has_the_documented_shape() {
    let cube = unit_cube(0xFF0000);
    assert_eq!(cube.vertices.len(), 8);
    assert_eq!(cube.colors.len(), 8);
    assert!(cube.edges.is_empty());
    assert_eq!(cube.triangles.len(), 12);
    assert_eq!(cube.vertices[0], Vector4 { x: -FX_ONE, y: -FX_ONE, z: -FX_ONE, w: FX_ONE });
    assert_eq!(cube.vertices[6], Vector4 { x: FX_ONE, y: FX_ONE, z: FX_ONE, w: FX_ONE });
    assert_eq!(cube.triangles[0], (0, 1, 2));
    assert_eq!(cube.triangles[11], (5, 1, 0));
    assert!(cube.colors.iter().all(|&c| c == 0xFF0000));
}

#[test]
fn unit_plane_grid_and_triangulation() {
    let plane = unit_plane(2, 2, 0x00FF00);
    assert_eq!(plane.vertices.len(), 4);
    assert_eq!(plane.colors.len(), 4);
    assert_eq!(plane.triangles.len(), 2);
    // x outer, z inner; coordinates are the grid index minus half the size
    assert_eq!(plane.vertices[0], Vector4 { x: -FX_ONE, y: 0, z: -FX_ONE, w: FX_ONE });
    assert_eq!(plane.vertices[1], Vector4 { x: -FX_ONE, y: 0, z: 0, w: FX_ONE });
    assert_eq!(plane.vertices[2], Vector4 { x: 0, y: 0, z: -FX_ONE, w: FX_ONE });
    assert_eq!(plane.vertices[3], Vector4 { x: 0, y: 0, z: 0, w: FX_ONE });
    assert_eq!(plane.triangles[0], (0, 1, 3));
    assert_eq!(plane.triangles[1], (0, 3, 2));
}

#[test]
fn displacement_lifts_dark_pixels_by_the_scale() {
    let mut plane = unit_plane(2, 2, 0x00FF00);
    // a black sample rises by the whole scale, a white one not at all
    displace_plane(&mut plane, &vec![0u8, 255, 0, 255], 2, 2, 30 * FX_ONE);
    assert_eq!(plane.vertices[0].y, 30 * FX_ONE);
    assert_eq!(plane.vertices[1].y, 0);
    assert_eq!(plane.vertices[2].y, 30 * FX_ONE);
    assert_eq!(plane.vertices[3].y, 0);
    // x and z are untouched
    assert_eq!(plane.vertices[0].x, -FX_ONE);
    assert_eq!(plane.vertices[0].z, -FX_ONE);
}

#[test]
fn colorize_packs_the_colormap_into_argb() {
    let mut plane = unit_plane(2, 2, 0x00FF00);
    let cmap = vec![
        (0xABu8, 0xCDu8, 0xEFu8, 0x12u8),
        (1, 2, 3, 4),
        (0, 0, 0, 0),
        (255, 255, 255, 255),
    ];
    colorize_plane(&mut plane, &cmap, 2, 2);
    assert_eq!(plane.colors[0], 0x12ABCDEF);
    assert_eq!(plane.colors[1], 0x04010203);
    assert_eq!(plane.colors[2], 0x00000000);
    assert_eq!(plane.colors[3], 0xFFFFFFFF);
}

#[test]
fn rgba_packing_is_argb_ordered() {
    assert_eq!(rgba_to_u32((0xAB, 0xCD, 0xEF, 0x12)), 0x12ABCDEF);
}

#[test]
fn buffer_byte_streams_extract_the_channels() {
    let buffer = vec![0x12ABCDEFu32, 0x00000000];
    let rgba = buffer_to_image_buffer_rgba(&buffer, (2, 1));
    assert_eq!(rgba, vec![0x12, 0xAB, 0xCD, 0xEF, 0, 0, 0, 0]);
    let rgb = buffer_to_image_buffer_rgb(&buffer, (2, 1));
    assert_eq!(rgb, vec![0xAB, 0xCD, 0xEF, 255, 0, 0, 0, 255]);
}
