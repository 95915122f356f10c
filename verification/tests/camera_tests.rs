use bouncing_cube::camera::{CAMERA_START_Z, Camera, FAR_PLANE, NEAR_PLANE};
use bouncing_cube::trig::{FX_PI_2, FX_PI_4};
use bouncing_cube::vec3::Vec3;

#[test]
fn new_camera_has_the_standoff_pose() {
    let camera = Camera::new(FX_PI_2, 65536);
    assert_eq!(camera.field_of_view, FX_PI_2);
    assert_eq!(camera.aspect_ratio, 65536);
    assert_eq!(camera.near_plane_distance, NEAR_PLANE);
    assert_eq!(camera.far_plane_distance, FAR_PLANE);
    assert_eq!(camera.position, Vec3 { x: 0, y: 0, z: CAMERA_START_Z });
    assert_eq!(camera.look_direction, Vec3 { x: 0, y: 0, z: 65536 });
    assert_eq!(camera.up_direction, Vec3 { x: 0, y: -65536, z: 0 });
    assert_eq!(camera.right_direction, Vec3 { x: 65536, y: 0, z: 0 });
    assert_eq!(camera.yaw, FX_PI_2);
    assert_eq!(camera.pitch, 0);
}

#[test]
fn fresh_camera_sees_ahead_and_misses_behind() {
    let camera = Camera::new(FX_PI_2, 65536);
    // The origin is on the look axis, two units ahead: visible.
    assert!(camera.can_see(Vec3 { x: 0, y: 0, z: 0 }, 0));
    // A point just past the near plane is visible too.
    assert!(camera.can_see(Vec3 { x: 0, y: 0, z: CAMERA_START_Z + NEAR_PLANE + 1 }, 0));
    // A point two units behind the camera is not.
    assert!(!camera.can_see(Vec3 { x: 0, y: 0, z: -262144 }, 0));
    // Neither is one just behind it.
    assert!(!camera.can_see(Vec3 { x: 0, y: 0, z: CAMERA_START_Z - 1 }, 0));
}

#[test]
fn fudge_radius_admits_nearby_outside_points() {
    let camera = Camera::new(FX_PI_2, 65536);
    let behind = Vec3 { x: 0, y: 0, z: CAMERA_START_Z - 65536 };
    assert!(!camera.can_see(behind, 0));
    // A generous sphere around the same point crosses into view.
    assert!(camera.can_see(behind, 13107200));
}

#[test]
fn rotate_rejects_a_pitch_past_vertical() {
    let mut camera = Camera::new(FX_PI_2, 65536);
    camera.rotate(0, FX_PI_2);
    assert_eq!(camera.pitch, 0);
    camera.rotate(0, -FX_PI_2);
    assert_eq!(camera.pitch, 0);
    camera.rotate(0, FX_PI_4);
    assert_eq!(camera.pitch, FX_PI_4);
    // The yaw applies even when the pitch is rejected.
    camera.rotate(100, FX_PI_2);
    assert_eq!(camera.pitch, FX_PI_4);
    assert_eq!(camera.yaw, FX_PI_2 + 100);
}

#[test]
fn rotate_recomputes_look_and_right() {
    let mut camera = Camera::new(FX_PI_2, 65536);
    camera.rotate(0, 0);
    // look = (-cos(yaw)cos(pitch), sin(pitch), sin(yaw)cos(pitch)) at the
    // initial yaw of pi/2 and pitch zero.
    assert_eq!(camera.look_direction, Vec3 { x: 1, y: 0, z: 65536 });
    assert_eq!(camera.right_direction, Vec3 { x: 65536, y: 0, z: -1 });
}

#[test]
fn rotate_leaves_the_cached_transform_until_recalculated() {
    let mut camera = Camera::new(FX_PI_2, 65536);
    let before = camera.transformation;
    camera.rotate(FX_PI_4, 0);
    assert_eq!(camera.transformation, before);
    camera.recalculate_transformation_and_view_planes();
    assert_ne!(camera.transformation, before);
}
