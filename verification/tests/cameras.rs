//! Behaviour of the transformation-matrix builders.

use cloudmath::{
    fps_camera, look_at, perspective_matrix, rotation_matrix_x, rotation_matrix_y,
    rotation_matrix_z, scale_matrix_xyz, translation_matrix_xyz, Matrix4, Vector3,
};

fn entries(m: &Matrix4) -> [f32; 16] {
    m.data.map(f32::from_bits)
}

fn point3(x: f32, y: f32, z: f32) -> Vector3 {
    Vector3::new(x.to_bits(), y.to_bits(), z.to_bits())
}

/// Applies `m` to the column vector `(v, 1)` and returns the first three
/// components, reading `m` row-major.
fn apply(m: &Matrix4, v: [f32; 3]) -> [f32; 3] {
    let d = entries(m);
    let mut out = [0.0f32; 3];
    for r in 0..3 {
        out[r] = d[4 * r] * v[0] + d[4 * r + 1] * v[1] + d[4 * r + 2] * v[2] + d[4 * r + 3];
    }
    out
}

fn assert_close(actual: [f32; 3], expected: [f32; 3], tolerance: f32) {
    for k in 0..3 {
        assert!(
            (actual[k] - expected[k]).abs() < tolerance,
            "component {}: {} vs {}",
            k,
            actual[k],
            expected[k]
        );
    }
}

#[test]
fn rotation_z_of_zero_is_identity() {
    let theta = 0.0f32;
    let m = rotation_matrix_z(theta.cos().to_bits(), theta.sin().to_bits());
    let i = entries(&Matrix4::new());
    let r = entries(&m);
    for k in 0..16 {
        assert_eq!(r[k], i[k], "entry {}", k);
    }
}

#[test]
fn rotation_z_quarter_turn_maps_x_to_y() {
    let theta = std::f32::consts::FRAC_PI_2;
    let m = rotation_matrix_z(theta.cos().to_bits(), theta.sin().to_bits());
    let mapped = apply(&m, [1.0, 0.0, 0.0]);
    assert_close(mapped, [0.0, 1.0, 0.0], 1e-6);
}

#[test]
fn rotation_x_quarter_turn_maps_y_to_z() {
    let theta = std::f32::consts::FRAC_PI_2;
    let m = rotation_matrix_x(theta.cos().to_bits(), theta.sin().to_bits());
    let mapped = apply(&m, [0.0, 1.0, 0.0]);
    assert_close(mapped, [0.0, 0.0, 1.0], 1e-6);
}

#[test]
fn rotation_y_quarter_turn_maps_z_to_x() {
    let theta = std::f32::consts::FRAC_PI_2;
    let m = rotation_matrix_y(theta.cos().to_bits(), theta.sin().to_bits());
    let mapped = apply(&m, [0.0, 0.0, 1.0]);
    assert_close(mapped, [1.0, 0.0, 0.0], 1e-6);
}

#[test]
fn translation_matrix_layout() {
    let m = translation_matrix_xyz(1.0f32.to_bits(), 2.0f32.to_bits(), 3.0f32.to_bits());
    let d = entries(&m);
    assert_eq!(
        d,
        [
            1.0, 0.0, 0.0, 0.0,
            0.0, 1.0, 0.0, 0.0,
            0.0, 0.0, 1.0, 0.0,
            1.0, 2.0, 3.0, 1.0,
        ]
    );
}

#[test]
fn scale_matrix_layout() {
    let m = scale_matrix_xyz(2.0f32.to_bits(), 3.0f32.to_bits(), 4.0f32.to_bits());
    let d = entries(&m);
    assert_eq!(
        d,
        [
            2.0, 0.0, 0.0, 0.0,
            0.0, 3.0, 0.0, 0.0,
            0.0, 0.0, 4.0, 0.0,
            0.0, 0.0, 0.0, 1.0,
        ]
    );
}

#[test]
fn perspective_matrix_pins_the_classic_form() {
    let aspect = 16.0f32 / 9.0;
    let fov_degrees = 90.0f32;
    let z_near = 0.1f32;
    let z_far = 100.0f32;
    let tan_half_fov = (fov_degrees * 0.5 * std::f32::consts::PI / 180.0).tan();
    let m = perspective_matrix(
        aspect.to_bits(),
        tan_half_fov.to_bits(),
        z_near.to_bits(),
        z_far.to_bits(),
    );
    let d = entries(&m);
    let scale = tan_half_fov * z_near;
    let right = aspect * scale;
    let top = scale;
    assert!((d[0] - z_near / right).abs() < 1e-6);
    assert!((d[5] - z_near / top).abs() < 1e-6);
    assert!((d[10] - (-(z_far + z_near) / (z_far - z_near))).abs() < 1e-4);
    assert_eq!(d[11], -1.0);
    assert!((d[14] - (-2.0 * z_far * z_near / (z_far - z_near))).abs() < 1e-4);
    assert_eq!(d[15], 0.0);
    // The remaining entries are zero.
    for k in [1, 2, 3, 4, 6, 7, 8, 9, 12, 13] {
        assert_eq!(d[k], 0.0, "entry {}", k);
    }
}

#[test]
fn look_at_places_eye_at_view_origin() {
    let eye = point3(1.0, 2.0, 3.0);
    let at = point3(0.0, 0.0, 0.0);
    let up = point3(0.0, 1.0, 0.0);
    let m = look_at(eye, at, up);
    let mapped = apply(&m, [1.0, 2.0, 3.0]);
    assert_close(mapped, [0.0, 0.0, 0.0], 1e-5);
}

#[test]
fn look_at_view_distance_is_preserved() {
    let eye = point3(1.0, 2.0, 3.0);
    let at = point3(-2.0, 0.5, 4.0);
    let up = point3(0.0, 1.0, 0.0);
    let m = look_at(eye, at, up);
    let world = [0.4f32, -1.0, 2.0];
    let mapped = apply(&m, world);
    let world_dist = ((world[0] - 1.0).powi(2) + (world[1] - 2.0).powi(2)
        + (world[2] - 3.0).powi(2))
        .sqrt();
    let view_dist = (mapped[0].powi(2) + mapped[1].powi(2) + mapped[2].powi(2)).sqrt();
    assert!((world_dist - view_dist).abs() < 1e-4);
}

#[test]
fn fps_camera_matches_look_at() {
    let yaw = 0.3f32;
    let pitch = 0.2f32;
    let (sy, cy) = (yaw.sin(), yaw.cos());
    let (sp, cp) = (pitch.sin(), pitch.cos());
    let eye = [1.0f32, 2.0, 3.0];
    // The first-person camera looks down the negative of its third basis
    // row; aim the look-at constructor the same way, with the camera's own
    // second basis row as the up direction.
    let dir = [-sy * cp, sp, -cp * cy];
    let at = point3(eye[0] + dir[0], eye[1] + dir[1], eye[2] + dir[2]);
    let up = point3(sy * sp, cp, cy * sp);
    let eye_v = point3(eye[0], eye[1], eye[2]);
    let from_look_at = look_at(eye_v, at, up);
    let from_fps = fps_camera(
        eye_v,
        cp.to_bits(),
        sp.to_bits(),
        cy.to_bits(),
        sy.to_bits(),
    );
    for world in [[0.3f32, -1.2, 2.5], [0.0, 0.0, 0.0], [5.0, 4.0, -3.0]] {
        let a = apply(&from_look_at, world);
        let b = apply(&from_fps, world);
        assert_close(a, b, 1e-4);
    }
}
