//! Checks of the orbit steps against the real vector library, applied the
//! same way the render loop applies them.

use nalgebra_glm as glm;
use x3d::camera::{Camera, OrbitDelta, Vec3Milli};

fn to_f32(v: Vec3Milli) -> glm::Vec3 {
    glm::vec3(v.x as f32 / 1000.0, v.y as f32 / 1000.0, v.z as f32 / 1000.0)
}

/// Carry out one orbit step on a floating-point eye position, pitch around
/// the current right axis first and then yaw around the up axis, exactly as
/// the render loop does.
fn apply_orbit(position: &mut glm::Vec3, target: glm::Vec3, up: glm::Vec3, delta: &OrbitDelta) {
    let dx = delta.yaw_microrad as f32 / 1_000_000.0;
    let dy = delta.pitch_microrad as f32 / 1_000_000.0;

    let right = glm::cross(&glm::normalize(&(*position - target)), &up);

    let pitch = glm::rotate(&glm::Mat4::identity(), dy, &right);
    let pos4 = glm::vec3_to_vec4(&(*position - target));
    *position = glm::vec4_to_vec3(&(pitch * pos4)) + target;

    let yaw = glm::rotate(&glm::Mat4::identity(), dx, &up);
    let pos4 = glm::vec3_to_vec4(&(*position - target));
    *position = glm::vec4_to_vec3(&(yaw * pos4)) + target;
}

#[test]
fn drag_sequence_preserves_distance_to_target() {
    let mut cam = Camera::new();
    let target = to_f32(cam.target);
    let up = to_f32(cam.up);
    let mut position = to_f32(cam.position);
    let start_radius = glm::magnitude(&(position - target));

    cam.is_rotating = true;
    let drag: [(i64, i64); 6] = [
        (0, 0),
        (40_000, 10_000),
        (90_000, -20_000),
        (150_000, -20_000),
        (150_000, 55_000),
        (20_000, 5_000),
    ];
    for &(x, y) in drag.iter() {
        if let Some(delta) = cam.process_mouse(x, y) {
            apply_orbit(&mut position, target, up, &delta);
        }
    }

    let end_radius = glm::magnitude(&(position - target));
    assert!((end_radius - start_radius).abs() / start_radius < 1e-4);
}

#[test]
fn pure_horizontal_drag_is_a_yaw() {
    let mut cam = Camera::new();
    cam.is_rotating = true;
    let delta = cam.process_mouse(100_000, 0).unwrap();
    assert_eq!(delta, OrbitDelta { yaw_microrad: 500_000, pitch_microrad: 0 });

    let target = to_f32(cam.target);
    let up = to_f32(cam.up);
    let mut position = to_f32(cam.position);
    apply_orbit(&mut position, target, up, &delta);

    // A yaw by 0.5 radians around the up axis sends (x, y, z) to
    // (x cos a + z sin a, y, -x sin a + z cos a).
    let a = 0.5_f32;
    let expected = glm::vec3(
        2.0 * a.cos() + 2.0 * a.sin(),
        2.0,
        -2.0 * a.sin() + 2.0 * a.cos(),
    );
    assert!(glm::magnitude(&(position - expected)) < 1e-4);
}

#[test]
fn default_view_matrix_is_the_fixed_look_at() {
    let cam = Camera::new();
    assert_eq!(cam.zoom_milli, 1000);
    let eye = to_f32(cam.view_eye_milli());
    assert_eq!(eye, glm::vec3(2.0, 2.0, 2.0));
    let view = glm::look_at(&eye, &to_f32(cam.target), &to_f32(cam.up));
    let reference = glm::look_at(
        &glm::vec3(2.0, 2.0, 2.0),
        &glm::vec3(0.0, 0.0, 0.0),
        &glm::vec3(0.0, 1.0, 0.0),
    );
    assert_eq!(view, reference);
}
