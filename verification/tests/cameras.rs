use ciri::camera::{Camera, CameraType, ControlType, OrbitControl, ORBIT_SENSITIVITY};
use ciri::camera_builder::{CameraBuilder, CameraPresets};
use ciri::camera_manager::CameraManager;
use ciri::frame::{Frame, InputEvent, MouseButton, Viewport};
use ciri::vec3::Vec3;

fn test_viewport() -> Viewport {
    Viewport::new_at_origo(640, 480)
}

fn plain_camera() -> Camera {
    Camera::new_2d(test_viewport())
}

#[test]
fn adding_cameras_activates_first() {
    let mut m = CameraManager::new();
    let a = m.add_camera(plain_camera());
    let b = m.add_camera(plain_camera());
    assert_eq!(a, 0);
    assert_eq!(b, 1);
    assert_eq!(m.active_camera, Some(a));
    assert!(m.get_active_camera().is_some());
}

#[test]
fn removing_active_falls_back_to_remaining() {
    let mut m = CameraManager::new();
    let a = m.add_camera(plain_camera());
    let b = m.add_camera(plain_camera());
    assert!(m.remove_camera(a).is_some());
    assert_eq!(m.active_camera, Some(b));
    assert!(m.get_active_camera().is_some());
}

#[test]
fn removing_only_camera_leaves_none_active() {
    let mut m = CameraManager::new();
    let a = m.add_camera(plain_camera());
    assert!(m.remove_camera(a).is_some());
    assert_eq!(m.active_camera, None);
    assert!(m.get_active_camera().is_none());
}

#[test]
fn removing_unknown_camera_is_silent() {
    let mut m = CameraManager::new();
    let a = m.add_camera(plain_camera());
    assert!(m.remove_camera(77).is_none());
    assert_eq!(m.active_camera, Some(a));
}

#[test]
fn set_active_camera_only_for_existing() {
    let mut m = CameraManager::new();
    let a = m.add_camera(plain_camera());
    let b = m.add_camera(plain_camera());
    assert!(m.set_active_camera(b));
    assert_eq!(m.active_camera, Some(b));
    assert!(!m.set_active_camera(99));
    assert_eq!(m.active_camera, Some(b));
    assert_eq!(m.camera_ids(), vec![a, b]);
}

fn orbit_camera(min: u32, max: u32, distance: u32) -> Camera {
    let mut c = Camera::new_2d(test_viewport());
    c.control = ControlType::Orbit { min_distance: min, max_distance: max };
    c.distance = distance;
    c.auto_viewport = false;
    c
}

fn wheel_frame(delta: i32) -> Frame {
    Frame::new(16, test_viewport(), vec![InputEvent::MouseWheel { delta, handled: false }])
}

#[test]
fn zooming_in_never_drops_below_min_distance() {
    let mut c = orbit_camera(2000, 10_000, 5000);
    for _ in 0..50 {
        let mut frame = wheel_frame(100_000);
        c.handle_events(&mut frame);
        assert!(c.distance >= 2000);
    }
    assert_eq!(c.distance, 2000);
}

#[test]
fn zooming_out_never_exceeds_max_distance() {
    let mut c = orbit_camera(2000, 10_000, 5000);
    for _ in 0..50 {
        let mut frame = wheel_frame(-100_000);
        c.handle_events(&mut frame);
        assert!(c.distance <= 10_000);
    }
    assert_eq!(c.distance, 10_000);
}

#[test]
fn pinch_zoom_respects_limits_too() {
    let mut c = orbit_camera(1000, 4000, 2000);
    for _ in 0..20 {
        let mut frame = Frame::new(
            16,
            test_viewport(),
            vec![InputEvent::PinchGesture { delta: 50_000, handled: false }],
        );
        c.handle_events(&mut frame);
        assert!(1000 <= c.distance && c.distance <= 4000);
    }
    assert_eq!(c.distance, 1000);
}

#[test]
fn wheel_zoom_speed_is_proportional_to_distance() {
    // distance 5000: speed = 5000/100 + 1 = 51 milli; delta 1000 milli
    // moves 51 milli closer.
    let mut c = orbit_camera(0, 100_000, 5000);
    let mut frame = wheel_frame(1000);
    let changed = c.handle_events(&mut frame);
    assert!(changed);
    assert_eq!(c.distance, 5000 - 51);
}

#[test]
fn consumed_events_are_marked_handled() {
    let mut c = orbit_camera(1000, 10_000, 5000);
    let mut frame = wheel_frame(1000);
    c.handle_events(&mut frame);
    assert!(matches!(frame.events[0], InputEvent::MouseWheel { handled: true, .. }));
}

#[test]
fn already_handled_events_are_skipped() {
    let mut c = orbit_camera(1000, 10_000, 5000);
    let mut frame = Frame::new(
        16,
        test_viewport(),
        vec![InputEvent::MouseWheel { delta: 100_000, handled: true }],
    );
    let changed = c.handle_events(&mut frame);
    assert!(!changed);
    assert_eq!(c.distance, 5000);
}

#[test]
fn left_drag_orbits_at_fixed_sensitivity() {
    let mut c = orbit_camera(1000, 10_000, 5000);
    let mut frame = Frame::new(
        16,
        test_viewport(),
        vec![InputEvent::MouseMotion {
            delta_x: 3,
            delta_y: 4,
            button: Some(MouseButton::Left),
            handled: false,
        }],
    );
    let changed = c.handle_events(&mut frame);
    assert!(changed);
    assert_eq!(c.yaw, 3 * ORBIT_SENSITIVITY);
    assert_eq!(c.pitch, 4 * ORBIT_SENSITIVITY);
}

#[test]
fn drag_without_left_button_is_ignored() {
    let mut c = orbit_camera(1000, 10_000, 5000);
    let mut frame = Frame::new(
        16,
        test_viewport(),
        vec![InputEvent::MouseMotion {
            delta_x: 3,
            delta_y: 4,
            button: Some(MouseButton::Right),
            handled: false,
        }],
    );
    let changed = c.handle_events(&mut frame);
    assert!(!changed);
    assert_eq!(c.yaw, 0);
    assert!(matches!(frame.events[0], InputEvent::MouseMotion { handled: false, .. }));
}

#[test]
fn inert_camera_consumes_nothing() {
    let mut c = plain_camera();
    let mut frame = wheel_frame(1000);
    let changed = c.handle_events(&mut frame);
    assert!(!changed);
    assert!(matches!(frame.events[0], InputEvent::MouseWheel { handled: false, .. }));
}

#[test]
fn standalone_orbit_control_uses_its_own_limits() {
    let mut control = OrbitControl::new(Vec3::zero(), 3000, 6000);
    let mut c = orbit_camera(0, 1_000_000, 5000);
    for _ in 0..30 {
        let mut frame = wheel_frame(100_000);
        control.handle_events(&mut c, &mut frame);
    }
    assert_eq!(c.distance, 3000);
}

#[test]
fn update_viewports_touches_only_auto_cameras() {
    let mut m = CameraManager::new();
    let mut fixed = plain_camera();
    fixed.auto_viewport = false;
    let a = m.add_camera(fixed);
    let b = m.add_camera(plain_camera());
    let vp = Viewport::new_at_origo(100, 200);
    m.update_viewports(vp);
    assert_eq!(m.get_camera(a).unwrap().viewport, test_viewport());
    assert_eq!(m.get_camera(b).unwrap().viewport, vp);
}

#[test]
fn manager_routes_events_to_active_camera_only() {
    let mut m = CameraManager::new();
    let a = m.add_camera(orbit_camera(1000, 10_000, 5000));
    let b = m.add_camera(orbit_camera(1000, 10_000, 5000));
    let mut frame = wheel_frame(1000);
    let changed = m.handle_events(&mut frame);
    assert!(changed);
    assert_eq!(m.get_camera(a).unwrap().distance, 5000 - 51);
    assert_eq!(m.get_camera(b).unwrap().distance, 5000);
}

#[test]
fn get_camera_mut_rewrites_active_camera() {
    let mut m = CameraManager::new();
    let a = m.add_camera(plain_camera());
    {
        let cam = m.get_camera_mut(a);
        cam.distance = 4242;
    }
    assert_eq!(m.get_active_camera().unwrap().distance, 4242);
    {
        let cam = m.get_active_camera_mut();
        cam.distance = 17;
    }
    assert_eq!(m.get_camera(a).unwrap().distance, 17);
}

#[test]
fn builder_produces_exact_orbit_preset() {
    let cam = CameraPresets::orbit_around_origin().build(test_viewport());
    assert_eq!(cam.camera_type, CameraType::Perspective);
    assert_eq!(
        cam.control,
        ControlType::Orbit { min_distance: 1000, max_distance: 100_000 }
    );
    assert_eq!(cam.target, Vec3::zero());
    // |(8, 4, 8)| = 12 units exactly.
    assert_eq!(cam.distance, 12_000);
    assert!(cam.auto_viewport);
}

#[test]
fn builder_setters_carry_over() {
    let cam = CameraBuilder::new()
        .perspective()
        .position(0, 3000, 4000)
        .look_at(0, 0, 0)
        .up(0, 1000, 0)
        .fov(60_000)
        .near_far(10, 2_000_000)
        .with_orbit_controls_limits(500, 9000)
        .auto_viewport(false)
        .build(test_viewport());
    assert_eq!(cam.distance, 5000);
    assert_eq!(cam.fov_millideg, 60_000);
    assert_eq!(cam.z_near, 10);
    assert_eq!(cam.z_far, 2_000_000);
    assert_eq!(cam.control, ControlType::Orbit { min_distance: 500, max_distance: 9000 });
    assert!(!cam.auto_viewport);
}

#[test]
fn orthographic_camera_centres_on_viewport() {
    let cam = Camera::new_2d(Viewport::new_at_origo(200, 100));
    assert_eq!(cam.camera_type, CameraType::Orthographic);
    assert_eq!(cam.target, Vec3::new(100_000, 50_000, 0));
    assert_eq!(cam.distance, 1000);
}

#[test]
fn presets_have_expected_shapes() {
    let top = CameraPresets::top_down();
    assert_eq!(top.camera_type, CameraType::Orthographic);
    assert_eq!(top.position, Vec3::new(0, 10_000, 0));
    assert_eq!(top.up, Vec3::new(0, 0, -1000));
    let side = CameraPresets::side_view();
    assert_eq!(side.position, Vec3::new(10_000, 0, 0));
    let front = CameraPresets::front_view();
    assert_eq!(front.position, Vec3::new(0, 0, 10_000));
    let iso = CameraPresets::isometric();
    assert_eq!(iso.camera_type, CameraType::Orthographic);
    assert_eq!(iso.position, Vec3::new(5000, 5000, 5000));
    let at = CameraPresets::orbit_around_origin_at_distance(10_000);
    assert_eq!(at.position.x, 7071);
    assert_eq!(at.position.y, 3535);
    assert_eq!(at.position.z, 7071);
}

#[test]
fn built_cameras_keep_their_pose() {
    let top = CameraPresets::top_down_at_height(10_000).build(test_viewport());
    assert_eq!(top.camera_type, CameraType::Orthographic);
    assert_eq!(top.up, Vec3::new(0, 0, -1000));
    assert_eq!(top.offset, Vec3::new(0, 10_000, 0));
    assert_eq!(top.distance, 10_000);

    let side = CameraPresets::side_view().build(test_viewport());
    assert_eq!(side.offset, Vec3::new(10_000, 0, 0));
    assert_eq!(side.distance, 10_000);
}

#[test]
fn scene_camera_delegations_mirror_the_manager() {
    let mut scene = ciri::scene::Scene::new("demo".to_string());
    let a = scene.add_camera(plain_camera());
    let b = scene.add_camera(plain_camera());
    assert!(scene.set_active_camera(b));
    assert!(!scene.set_active_camera(99));
    assert!(scene.remove_camera(99).is_none());
    assert!(scene.remove_camera(b).is_some());
    // The active camera fell back to the first remaining one.
    assert!(scene.get_active_camera().is_some());
    assert!(scene.set_active_camera(a));
}
