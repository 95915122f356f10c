use bouncing_cube::camera::Camera;
use bouncing_cube::instances::{build_instances, build_light_data, shadow_layers_required,
    validate_shadow_storage};
use bouncing_cube::mat4::Mat4;
use bouncing_cube::model::{CubeInformation, PointLightInformation, QuadInformation};
use bouncing_cube::trig::FX_PI_2;
use bouncing_cube::vec3::{Vec3, Vec4};

fn colored_quad(red: i64) -> QuadInformation {
    QuadInformation {
        ambient_color: Vec3 { x: red, y: 0, z: 0 },
        diffuse_color: Vec3 { x: red, y: 0, z: 0 },
        specular_color: Vec3 { x: 65536, y: 65536, z: 65536 },
        shininess: 2097152,
    }
}

fn resting_cube() -> CubeInformation {
    CubeInformation {
        center: Vec3 { x: 0, y: 0, z: 0 },
        side_length: 6554,
        velocity: Vec3 { x: 0, y: 0, z: 0 },
        rotation_angle: 0,
        axis_of_rotation: Vec3 { x: 0, y: 0, z: 65536 },
        quads: [
            colored_quad(10),
            colored_quad(11),
            colored_quad(12),
            colored_quad(13),
            colored_quad(14),
            colored_quad(15),
        ],
    }
}

#[test]
fn eleven_instances_in_fixed_order() {
    let cube = resting_cube();
    let bounds = Vec3 { x: 65536, y: 65536, z: 65536 };
    let walls = [
        colored_quad(20),
        colored_quad(21),
        colored_quad(22),
        colored_quad(23),
        colored_quad(24),
    ];
    let instances = build_instances(&cube, bounds, &walls);
    assert_eq!(instances.len(), 11);
    // Faces first, in face order; then walls, in wall order.
    for (i, instance) in instances.iter().enumerate() {
        let expected = if i < 6 { 10 + i as i64 } else { 14 + i as i64 };
        assert_eq!(instance.diffuse_color.x, expected);
        assert_eq!(instance.shininess, 2097152);
    }
}

#[test]
fn resting_cube_back_face_transform_is_exact() {
    // With the cube centered and unrotated, the back face's transform is
    // the cube's scale with a half-side push along +z.
    let cube = resting_cube();
    let bounds = Vec3 { x: 65536, y: 65536, z: 65536 };
    let walls = [
        colored_quad(20),
        colored_quad(21),
        colored_quad(22),
        colored_quad(23),
        colored_quad(24),
    ];
    let instances = build_instances(&cube, bounds, &walls);
    let expected = Mat4 {
        c0: Vec4 { x: 6554, y: 0, z: 0, w: 0 },
        c1: Vec4 { x: 0, y: 6554, z: 0, w: 0 },
        c2: Vec4 { x: 0, y: 0, z: 6554, w: 0 },
        c3: Vec4 { x: 0, y: 0, z: 3277, w: 65536 },
    };
    assert_eq!(instances[4].object_transform, expected);
}

#[test]
fn instance_order_ignores_cube_pose() {
    let mut cube = resting_cube();
    cube.center = Vec3 { x: 44444, y: -3333, z: 222 };
    cube.rotation_angle = 98765;
    let bounds = Vec3 { x: 131072, y: 65536, z: 65536 };
    let walls = [
        colored_quad(20),
        colored_quad(21),
        colored_quad(22),
        colored_quad(23),
        colored_quad(24),
    ];
    let instances = build_instances(&cube, bounds, &walls);
    assert_eq!(instances.len(), 11);
    for (i, instance) in instances.iter().enumerate() {
        let expected = if i < 6 { 10 + i as i64 } else { 14 + i as i64 };
        assert_eq!(instance.diffuse_color.x, expected);
    }
}

#[test]
fn light_data_carries_lights_and_shadow_transforms() {
    let light = PointLightInformation {
        position: Vec3 { x: 30000, y: 0, z: -137626 },
        ambient_light: Vec3 { x: 6554, y: 6554, z: 6554 },
        diffuse_light: Vec3 { x: 65536, y: 6554, z: 6554 },
        specular_light: Vec3 { x: 65536, y: 65536, z: 65536 },
        constant_attenuation: 65536,
        linear_attenuation: 5898,
        quadratic_attenuation: 2097,
    };
    let data = build_light_data(&[light, light, light]);
    assert_eq!(data.len(), 3);
    assert_eq!(data[0].position, light.position);
    assert_eq!(data[0].diffuse_color, light.diffuse_light);
    assert_eq!(data[0].quadratic_attenuation, 2097);
    // The first shadow transform is the transform of a square, right-angle
    // camera at the light, looking down -x; rebuild one and compare.
    let mut reference = Camera::new(FX_PI_2, 65536);
    reference.position = light.position;
    reference.look_direction = Vec3 { x: -65536, y: 0, z: 0 };
    reference.recalculate_transformation_and_view_planes();
    assert_eq!(data[0].camera_transforms[0], reference.transformation);
    // Looking up is perturbed off the exact vertical, so it differs from a
    // straight +y construction's degenerate transform.
    assert_ne!(data[0].camera_transforms[2], data[0].camera_transforms[3]);
}

#[test]
fn shadow_storage_validation_is_exact() {
    assert_eq!(shadow_layers_required(3), 18);
    assert_eq!(validate_shadow_storage(3, 18), Ok(18));
    assert_eq!(validate_shadow_storage(3, 100), Ok(18));
    let err = validate_shadow_storage(3, 17).unwrap_err();
    assert_eq!(err.required_layers, 18);
    assert_eq!(err.available_layers, 17);
}
