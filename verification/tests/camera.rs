use wireframe::algebra::Vector4;
use wireframe::fixed::{fx_div, FX_ONE};
use wireframe::render::Camera;

fn fx(v: f64) -> i64 {
    (v * 65536.0).round() as i64
}

fn test_camera() -> Camera {
    Camera {
        fov: fx(90.0),
        near: fx(0.1),
        far: fx(1000.0),
        up: Vector4 { x: 0, y: FX_ONE, z: 0, w: 0 },
        position: Vector4 { x: 0, y: 0, z: -20 * FX_ONE, w: FX_ONE },
        look_at: Vector4 { x: 0, y: 0, z: 0, w: FX_ONE },
    }
}

#[test]
fn projection_maps_near_plane_to_minus_one_and_far_plane_to_plus_one() {
    let camera = test_camera();
    let tan_half_fov = fx((45.0f64).to_radians().tan());
    let pm = camera.get_projection_matrix(FX_ONE, tan_half_fov);

    let near_point = Vector4 { x: 0, y: 0, z: -camera.near, w: FX_ONE };
    let clip = pm.transform(&near_point);
    let ndc_z = fx_div(clip.z, clip.w);
    assert!((ndc_z + FX_ONE).abs() < 3000, "near ndc z was {}", ndc_z);

    let far_point = Vector4 { x: 0, y: 0, z: -camera.far, w: FX_ONE };
    let clip = pm.transform(&far_point);
    let ndc_z = fx_div(clip.z, clip.w);
    assert!((ndc_z - FX_ONE).abs() < 3000, "far ndc z was {}", ndc_z);
}

#[test]
fn view_matrix_sends_the_camera_position_to_the_origin() {
    let camera = Camera {
        fov: fx(90.0),
        near: fx(0.1),
        far: fx(1000.0),
        up: Vector4 { x: 0, y: FX_ONE, z: 0, w: 0 },
        position: Vector4 { x: fx(1.5), y: fx(-2.0), z: fx(3.0), w: FX_ONE },
        look_at: Vector4 { x: fx(0.5), y: fx(7.0), z: fx(-4.0), w: FX_ONE },
    };
    let vm = camera.get_view_matrix();
    let p = Vector4 { x: camera.position.x, y: camera.position.y, z: camera.position.z, w: FX_ONE };
    let r = vm.transform(&p);
    assert_eq!(r, Vector4 { x: 0, y: 0, z: 0, w: FX_ONE });
}

#[test]
fn rotating_by_angle_zero_changes_nothing() {
    let mut camera = test_camera();
    let before = camera;
    let axis = camera.up;
    camera.rotate_around_look_at(axis, 0, FX_ONE);
    assert_eq!(camera.position, before.position);
    assert_eq!(camera.look_at, before.look_at);
    // up keeps its direction; its w component is pinned to 1 by the rotation
    assert_eq!(camera.up.x, before.up.x);
    assert_eq!(camera.up.y, before.up.y);
    assert_eq!(camera.up.z, before.up.z);
    assert_eq!(camera.fov, before.fov);
    assert_eq!(camera.near, before.near);
    assert_eq!(camera.far, before.far);
}

#[test]
fn quarter_turn_about_the_up_axis_moves_the_position_onto_the_x_axis() {
    let mut camera = test_camera();
    let axis = Vector4 { x: 0, y: FX_ONE, z: 0, w: 0 };
    // sine 1, cosine 0: a quarter turn about the world y axis
    camera.rotate_around_look_at(axis, FX_ONE, 0);
    assert_eq!(camera.position, Vector4 { x: -20 * FX_ONE, y: 0, z: 0, w: FX_ONE });
    assert_eq!(camera.look_at, Vector4 { x: 0, y: 0, z: 0, w: FX_ONE });
}
