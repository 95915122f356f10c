use bouncing_cube::camera::Camera;
use bouncing_cube::model::{
    BouncingCubeSceneInformation, CubeInformation, PointLightInformation, QuadInformation,
    semi_diagonal_of,
};
use bouncing_cube::rng::random_in_range;
use bouncing_cube::trig::{FX_PI_2, FX_TWO_PI};
use bouncing_cube::vec3::Vec3;

fn grey_quad() -> QuadInformation {
    QuadInformation {
        ambient_color: Vec3 { x: 32768, y: 32768, z: 32768 },
        diffuse_color: Vec3 { x: 32768, y: 32768, z: 32768 },
        specular_color: Vec3 { x: 65536, y: 65536, z: 65536 },
        shininess: 2097152,
    }
}

fn plain_light() -> PointLightInformation {
    PointLightInformation {
        position: Vec3 { x: 0, y: 0, z: -137626 },
        ambient_light: Vec3 { x: 6554, y: 6554, z: 6554 },
        diffuse_light: Vec3 { x: 65536, y: 6554, z: 6554 },
        specular_light: Vec3 { x: 65536, y: 65536, z: 65536 },
        constant_attenuation: 65536,
        linear_attenuation: 5898,
        quadratic_attenuation: 2097,
    }
}

/// A deterministic scene: unit room, cube of side 0.1 at the center.
fn unit_scene(center: Vec3, velocity: Vec3) -> BouncingCubeSceneInformation {
    BouncingCubeSceneInformation {
        window_size: [65536, 65536],
        scene_camera: Camera::new(FX_PI_2, 65536),
        scene_bounds: Vec3 { x: 65536, y: 65536, z: 65536 },
        ambient_light: Vec3 { x: 6554, y: 6554, z: 6554 },
        cube: CubeInformation {
            center,
            side_length: 6554,
            velocity,
            rotation_angle: 0,
            axis_of_rotation: Vec3 { x: 0, y: 0, z: 65536 },
            quads: [
                grey_quad(),
                grey_quad(),
                grey_quad(),
                grey_quad(),
                grey_quad(),
                grey_quad(),
            ],
        },
        point_light_distance_from_center: 30000,
        point_light_rotation_angle: 0,
        lights: [plain_light(), plain_light(), plain_light()],
        wall_quads: [grey_quad(), grey_quad(), grey_quad(), grey_quad(), grey_quad()],
    }
}

#[test]
fn semi_diagonal_of_default_side() {
    assert_eq!(semi_diagonal_of(6554), 5661);
}

#[test]
fn end_to_end_bounce_clamps_and_reflects() {
    // Cube at the center, side 0.1, velocity (2, 0, 0), x bound 1.
    let mut scene = unit_scene(
        Vec3 { x: 0, y: 0, z: 0 },
        Vec3 { x: 131072, y: 0, z: 0 },
    );
    // Half a second: the center would reach x = 1.0 and is clamped onto the
    // wall, one semi-diagonal in, with the velocity reflected.
    scene.update(32768);
    assert_eq!(scene.cube.center.x, 65536 - 5661);
    assert_eq!(scene.cube.velocity.x, -131072);
    // Another half second: the cube moves back inside, still heading -x.
    scene.update(32768);
    assert_eq!(scene.cube.center.x, -5661);
    assert!(scene.cube.velocity.x < 0);
    assert_eq!(scene.cube.center.y, 0);
    assert_eq!(scene.cube.center.z, 0);
}

#[test]
fn corner_hit_reflects_two_axes_at_once() {
    let mut scene = unit_scene(
        Vec3 { x: 0, y: 0, z: 0 },
        Vec3 { x: 131072, y: 131072, z: 0 },
    );
    scene.update(32768);
    assert_eq!(scene.cube.center.x, 59875);
    assert_eq!(scene.cube.center.y, 59875);
    assert_eq!(scene.cube.velocity.x, -131072);
    assert_eq!(scene.cube.velocity.y, -131072);
    assert_eq!(scene.cube.velocity.z, 0);
}

#[test]
fn low_wall_hit_clamps_to_negative_bound() {
    let mut scene = unit_scene(
        Vec3 { x: 0, y: 0, z: 0 },
        Vec3 { x: 0, y: 0, z: -131072 },
    );
    scene.update(32768);
    assert_eq!(scene.cube.center.z, -(65536 - 5661));
    assert_eq!(scene.cube.velocity.z, 131072);
}

#[test]
fn zero_dt_update_is_a_position_noop() {
    let mut scene = unit_scene(
        Vec3 { x: 1234, y: -2345, z: 345 },
        Vec3 { x: 131072, y: 9999, z: -4321 },
    );
    scene.update(0);
    assert_eq!(scene.cube.center.x, 1234);
    assert_eq!(scene.cube.center.y, -2345);
    assert_eq!(scene.cube.center.z, 345);
    assert_eq!(scene.cube.rotation_angle, 0);
    assert_eq!(scene.point_light_rotation_angle, 0);
}

#[test]
fn update_advances_angles_and_orbits_lights() {
    let mut scene = unit_scene(Vec3 { x: 0, y: 0, z: 0 }, Vec3 { x: 0, y: 0, z: 0 });
    scene.update(32768);
    // pi/4 and pi/2 per second, half a second each.
    assert_eq!(scene.cube.rotation_angle, 25736);
    assert_eq!(scene.point_light_rotation_angle, 51472);
    // The lights' z plane never changes, and the colors are fixed.
    assert_eq!(scene.lights[0].position.z, -137626);
    assert_eq!(scene.lights[1].diffuse_light.x, 65536);
    assert_eq!(scene.lights[2].constant_attenuation, 65536);
}

#[test]
fn lights_at_angle_zero_sit_on_their_spokes() {
    let mut scene = unit_scene(Vec3 { x: 0, y: 0, z: 0 }, Vec3 { x: 0, y: 0, z: 0 });
    // dt = 0 keeps the orbit angle at zero but recomputes the positions.
    scene.update(0);
    assert_eq!(scene.lights[0].position.x, 30000);
    assert_eq!(scene.lights[0].position.y, 0);
    assert_eq!(scene.lights[1].position.x, -15000);
    assert_eq!(scene.lights[1].position.y, 25988);
    assert_eq!(scene.lights[2].position.x, -15000);
    assert_eq!(scene.lights[2].position.y, -25988);
}

#[test]
fn resize_rederives_aspect_bound_and_radius() {
    let mut scene = unit_scene(Vec3 { x: 7, y: 8, z: 9 }, Vec3 { x: 0, y: 0, z: 0 });
    scene.resize(131072, 65536);
    assert_eq!(scene.scene_camera.aspect_ratio, 131072);
    assert_eq!(scene.scene_bounds.x, 131072);
    assert_eq!(scene.scene_bounds.y, 65536);
    // min(y bound, x bound) / 3
    assert_eq!(scene.point_light_distance_from_center, 21845);
    // The known limitation: the cube is not re-clamped on resize.
    assert_eq!(scene.cube.center.x, 7);
}

#[test]
fn resize_twice_equals_resize_once() {
    let mut once = unit_scene(Vec3 { x: 0, y: 0, z: 0 }, Vec3 { x: 0, y: 0, z: 0 });
    once.resize(98304, 65536);
    let mut twice = unit_scene(Vec3 { x: 0, y: 0, z: 0 }, Vec3 { x: 0, y: 0, z: 0 });
    twice.resize(98304, 65536);
    twice.resize(98304, 65536);
    assert_eq!(
        twice.scene_camera.transformation,
        once.scene_camera.transformation
    );
    assert_eq!(twice.scene_camera.view_planes, once.scene_camera.view_planes);
    assert_eq!(twice.scene_bounds, once.scene_bounds);
    assert_eq!(
        twice.point_light_distance_from_center,
        once.point_light_distance_from_center
    );
}

#[test]
fn fresh_scene_starts_inside_its_bounds() {
    for _ in 0..50 {
        let scene = BouncingCubeSceneInformation::new(65536, 65536);
        let sd = 5661;
        assert!(scene.scene_bounds.y == 65537);
        assert!(scene.scene_bounds.z == 65536);
        assert!(scene.cube.center.x >= -scene.scene_bounds.x + sd);
        assert!(scene.cube.center.x < scene.scene_bounds.x - sd);
        assert!(scene.cube.center.y >= -scene.scene_bounds.y + sd);
        assert!(scene.cube.center.y < scene.scene_bounds.y - sd);
        assert!(scene.cube.center.z >= -scene.scene_bounds.z + sd);
        assert!(scene.cube.center.z < scene.scene_bounds.z - sd);
        assert!(scene.cube.rotation_angle >= 0);
        assert!(scene.cube.rotation_angle < FX_TWO_PI);
        assert_eq!(scene.cube.side_length, 6554);
        assert_eq!(scene.point_light_rotation_angle, 0);
    }
}

#[test]
fn random_in_range_stays_in_range() {
    for _ in 0..200 {
        let r = random_in_range(-3, 5);
        assert!((-3..5).contains(&r));
    }
    // a single-value range is forced
    assert_eq!(random_in_range(5, 6), 5);
}

#[test]
fn frame_data_has_the_fixed_layout() {
    let scene = unit_scene(Vec3 { x: 0, y: 0, z: 0 }, Vec3 { x: 0, y: 0, z: 0 });
    let (instances, light_data) = scene.build_frame_data();
    assert_eq!(instances.len(), 11);
    assert_eq!(light_data.len(), 3);
    assert_eq!(light_data[0].position.z, -137626);
}

#[test]
fn updates_never_leave_the_room() {
    let mut scene = unit_scene(
        Vec3 { x: 11, y: -22, z: 33 },
        Vec3 { x: 88011, y: -50321, z: 66600 },
    );
    let sd = semi_diagonal_of(scene.cube.side_length);
    for _ in 0..100 {
        scene.update(19661);
        assert!(scene.cube.center.x.abs() + sd <= scene.scene_bounds.x);
        assert!(scene.cube.center.y.abs() + sd <= scene.scene_bounds.y);
        assert!(scene.cube.center.z.abs() + sd <= scene.scene_bounds.z);
    }
}
