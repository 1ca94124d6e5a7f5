use x3d::camera::{Camera, OrbitDelta, Vec3Milli, ZOOM_MAX_MILLI, ZOOM_MIN_MILLI};
use x3d::events::{effective_viewport, handle_event, EventOutcome, InputEvent};
use x3d::geometry::{create_cube_vertices, Vertex};
use x3d::shader::{compile_outcome, link_outcome, ShaderFailure};

#[test]
fn default_camera_state() {
    let cam = Camera::new();
    assert_eq!(cam.position, Vec3Milli { x: 2000, y: 2000, z: 2000 });
    assert_eq!(cam.target, Vec3Milli { x: 0, y: 0, z: 0 });
    assert_eq!(cam.up, Vec3Milli { x: 0, y: 1000, z: 0 });
    assert_eq!(cam.zoom_milli, 1000);
    assert_eq!((cam.last_mouse_x_milli, cam.last_mouse_y_milli), (0, 0));
    assert!(!cam.is_rotating);
}

#[test]
fn scroll_step_then_clamp_at_min() {
    let mut cam = Camera::new();
    cam.process_scroll(100);
    assert_eq!(cam.zoom_milli, 900);
    for _ in 0..60 {
        cam.process_scroll(100);
    }
    assert_eq!(cam.zoom_milli, ZOOM_MIN_MILLI);
    cam.process_scroll(100);
    assert_eq!(cam.zoom_milli, ZOOM_MIN_MILLI);
}

#[test]
fn scroll_clamps_for_any_offset() {
    let offsets: [i64; 7] = [0, 1, -1, 123456, -123456, i64::MAX, i64::MIN];
    for &off in offsets.iter() {
        let mut cam = Camera::new();
        cam.process_scroll(off);
        assert!(ZOOM_MIN_MILLI <= cam.zoom_milli && cam.zoom_milli <= ZOOM_MAX_MILLI);
    }
}

#[test]
fn scroll_out_clamps_at_max() {
    let mut cam = Camera::new();
    cam.process_scroll(-3999);
    assert_eq!(cam.zoom_milli, 4999);
    cam.process_scroll(-2);
    assert_eq!(cam.zoom_milli, ZOOM_MAX_MILLI);
}

#[test]
fn drag_yields_scaled_deltas() {
    let mut cam = Camera::new();
    cam.is_rotating = true;
    let r = cam.process_mouse(100_000, 0);
    assert_eq!(
        r,
        Some(OrbitDelta { yaw_microrad: 500_000, pitch_microrad: 0 })
    );
    let r2 = cam.process_mouse(100_000, 40_000);
    assert_eq!(
        r2,
        Some(OrbitDelta { yaw_microrad: 0, pitch_microrad: -200_000 })
    );
}

#[test]
fn moving_without_rotating_only_updates_cursor() {
    let mut cam = Camera::new();
    cam.is_rotating = true;
    let _ = cam.process_mouse(5_000, 7_000);
    cam.is_rotating = false;
    let before = cam.position;
    let r = cam.process_mouse(900_000, -300_000);
    assert_eq!(r, None);
    assert_eq!(cam.position, before);
    assert_eq!(cam.last_mouse_x_milli, 900_000);
    assert_eq!(cam.last_mouse_y_milli, -300_000);
}

#[test]
fn view_eye_scales_with_zoom() {
    let mut cam = Camera::new();
    assert_eq!(cam.view_eye_milli(), Vec3Milli { x: 2000, y: 2000, z: 2000 });
    cam.process_scroll(100);
    assert_eq!(cam.view_eye_milli(), Vec3Milli { x: 1800, y: 1800, z: 1800 });
    cam.set_position(Vec3Milli { x: -2000, y: 0, z: 2000 });
    assert_eq!(cam.view_eye_milli(), Vec3Milli { x: -1800, y: 0, z: 1800 });
}

#[test]
fn escape_requests_close() {
    let mut cam = Camera::new();
    let out = handle_event(&mut cam, &InputEvent::EscapePressed);
    assert_eq!(
        out,
        EventOutcome { close_requested: true, orbit: None }
    );
    assert_eq!(cam, Camera::new());
}

#[test]
fn mouse_button_toggles_rotation() {
    let mut cam = Camera::new();
    let out = handle_event(&mut cam, &InputEvent::PrimaryMousePressed);
    assert!(cam.is_rotating);
    assert!(!out.close_requested);
    let out2 = handle_event(&mut cam, &InputEvent::PrimaryMouseReleased);
    assert!(!cam.is_rotating);
    assert_eq!(out2.orbit, None);
}

#[test]
fn release_then_move_leaves_position_alone() {
    let mut cam = Camera::new();
    handle_event(&mut cam, &InputEvent::PrimaryMousePressed);
    handle_event(&mut cam, &InputEvent::CursorMoved { x_milli: 10_000, y_milli: 20_000 });
    handle_event(&mut cam, &InputEvent::PrimaryMouseReleased);
    let before = cam.position;
    let out = handle_event(&mut cam, &InputEvent::CursorMoved { x_milli: 77_000, y_milli: -5_000 });
    assert_eq!(out.orbit, None);
    assert_eq!(cam.position, before);
    assert_eq!(cam.last_mouse_x_milli, 77_000);
    assert_eq!(cam.last_mouse_y_milli, -5_000);
}

#[test]
fn scroll_event_reaches_zoom() {
    let mut cam = Camera::new();
    let out = handle_event(&mut cam, &InputEvent::ScrollMoved { yoffset_centi: -100 });
    assert_eq!(cam.zoom_milli, 1100);
    assert_eq!(out, EventOutcome { close_requested: false, orbit: None });
}

#[test]
fn ignored_event_changes_nothing() {
    let mut cam = Camera::new();
    let out = handle_event(&mut cam, &InputEvent::Ignored);
    assert_eq!(cam, Camera::new());
    assert_eq!(out, EventOutcome { close_requested: false, orbit: None });
}

#[test]
fn viewport_is_never_degenerate() {
    assert_eq!(effective_viewport(800, 600), (800, 600));
    assert_eq!(effective_viewport(0, -5), (1, 1));
    assert_eq!(effective_viewport(800, 0), (800, 1));
}

#[test]
fn cube_has_36_vertices_6_per_face() {
    let verts = create_cube_vertices();
    assert_eq!(verts.len(), 36);
    let normals: [Vec3Milli; 6] = [
        Vec3Milli { x: 0, y: 0, z: 1000 },
        Vec3Milli { x: 0, y: 0, z: -1000 },
        Vec3Milli { x: -1000, y: 0, z: 0 },
        Vec3Milli { x: 1000, y: 0, z: 0 },
        Vec3Milli { x: 0, y: -1000, z: 0 },
        Vec3Milli { x: 0, y: 1000, z: 0 },
    ];
    for n in normals.iter() {
        let count = verts.iter().filter(|v| v.normal == *n).count();
        assert_eq!(count, 6);
    }
    for v in verts.iter() {
        assert_eq!(v.position.x.abs(), 500);
        assert_eq!(v.position.y.abs(), 500);
        assert_eq!(v.position.z.abs(), 500);
    }
}

#[test]
fn cube_table_starts_with_front_face() {
    let verts = create_cube_vertices();
    assert_eq!(
        verts[0],
        Vertex {
            position: Vec3Milli { x: -500, y: -500, z: 500 },
            normal: Vec3Milli { x: 0, y: 0, z: 1000 },
        }
    );
    assert_eq!(
        verts[35],
        Vertex {
            position: Vec3Milli { x: -500, y: 500, z: -500 },
            normal: Vec3Milli { x: 0, y: 1000, z: 0 },
        }
    );
}

#[test]
fn compile_success_keeps_handle() {
    let r = compile_outcome(7, true, String::new());
    assert_eq!(r.unwrap(), 7);
}

#[test]
fn compile_failure_carries_log() {
    let log = String::from("ERROR: 0:1: 'widget' : undeclared identifier");
    let r = compile_outcome(7, false, log.clone());
    let failure = r.unwrap_err();
    let msg = failure.message();
    assert!(msg.contains("'widget' : undeclared identifier"));
    assert!(msg.starts_with("Shader compilation failed: "));
    match failure {
        ShaderFailure::Compile { log: l } => assert_eq!(l, log),
        ShaderFailure::Link { .. } => panic!("wrong failure kind"),
    }
}

#[test]
fn link_failure_carries_log() {
    let log = String::from("error: entry point not found");
    let r = link_outcome(9, false, log.clone());
    let failure = r.unwrap_err();
    let msg = failure.message();
    assert!(msg.contains("entry point not found"));
    assert!(msg.starts_with("Program linking failed: "));
}

#[test]
fn link_success_keeps_handle() {
    let r = link_outcome(9, true, String::new());
    assert_eq!(r.unwrap(), 9);
}
