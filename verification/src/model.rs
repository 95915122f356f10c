//! The bouncing-cube scene model: cube pose and velocity, orbiting point
//! lights, room bounds derived from the camera, and the per-step physics.
//!
//! `update` advances rotation angles, orbits the lights, integrates the
//! cube center by one explicit Euler step, and resolves wall collisions per
//! axis against the cube's bounding sphere (its semi-diagonal).  `resize`
//! rederives the camera transform and the room's x-bound; by design it does
//! not re-clamp the cube, which can therefore sit outside freshly shrunk
//! bounds until the next `update` pulls it back — a known, documented
//! limitation.

use vstd::prelude::*;
use crate::camera::{Camera, CAMERA_START_Z, NEAR_PLANE, FAR_PLANE, is_consistent,
    spec_camera_transform, spec_projection_ok};
use crate::fixed::{FX_HALF, FX_ONE, abs_int, fx_add, fx_div, fx_min, fx_mul, fx_neg, fx_sqrt, fx_sub,
    lemma_div_trunc_value, spec_add,
    spec_div, spec_mul, spec_neg, spec_sqrt, spec_sub};
use crate::rng::random_in_range;
use crate::trig::{FX_PI_2, FX_PI_4, FX_TWO_PI, fx_cos, fx_sin, spec_cos, spec_sin};
use crate::vec3::{Vec3, spec_v3_add, spec_v3_normalize, spec_v3_scale};

verus! {

/// Fixed-point 3, the divisor of the light orbit radius.
pub const FX_THREE: i64 = 196608;

/// The cube's side length at construction, fixed-point 0.1.
pub const DEFAULT_SIDE_LENGTH: i64 = 6554;

/// Fixed-point 0.1, the dim component of the face and light colors.
pub const FX_TENTH: i64 = 6554;

/// Fixed-point 0.5, the wall grey.
pub const FX_GREY: i64 = 32768;

/// The lights' plane, fixed-point -2.1.
pub const LIGHT_PLANE_Z: i64 = -137626;

/// The cube's starting speed, fixed-point 1.5.
pub const START_SPEED: i64 = 98304;

/// The specular exponent shared by all materials, fixed-point 32.
pub const SHININESS: i64 = 2097152;

/// Constant attenuation coefficient, fixed-point 1.
pub const ATTENUATION_CONSTANT: i64 = 65536;

/// Linear attenuation coefficient, fixed-point 0.09.
pub const ATTENUATION_LINEAR: i64 = 5898;

/// Quadratic attenuation coefficient, fixed-point 0.032.
pub const ATTENUATION_QUADRATIC: i64 = 2097;

/// Fixed-point 2*pi/3, the angle between neighbouring lights.
pub const FX_TWO_THIRDS_PI: i64 = 137258;

/// Fixed-point 4*pi/3, twice the angle between neighbouring lights.
pub const FX_FOUR_THIRDS_PI: i64 = 274516;

/// The material of one drawable quad.
#[derive(Clone, Copy, PartialEq, Eq, Structural, Debug)]
pub struct QuadInformation {
    pub ambient_color: Vec3,
    pub diffuse_color: Vec3,
    pub specular_color: Vec3,
    pub shininess: i64,
}

/// The cube's pose, velocity, spin, and per-face materials.
#[derive(Clone, Copy, Debug)]
pub struct CubeInformation {
    pub center: Vec3,
    pub side_length: i64,
    pub velocity: Vec3,
    pub rotation_angle: i64,
    pub axis_of_rotation: Vec3,
    pub quads: [QuadInformation; 6],
}

/// One point light: a moving position with fixed colors and attenuation.
#[derive(Clone, Copy, PartialEq, Eq, Structural, Debug)]
pub struct PointLightInformation {
    pub position: Vec3,
    pub ambient_light: Vec3,
    pub diffuse_light: Vec3,
    pub specular_light: Vec3,
    pub constant_attenuation: i64,
    pub linear_attenuation: i64,
    pub quadratic_attenuation: i64,
}

/// The whole scene model: camera, room bounds, cube, and lights.
pub struct BouncingCubeSceneInformation {
    pub window_size: [i64; 2],
    pub scene_camera: Camera,
    pub scene_bounds: Vec3,
    pub ambient_light: Vec3,
    pub cube: CubeInformation,
    pub point_light_distance_from_center: i64,
    pub point_light_rotation_angle: i64,
    pub lights: [PointLightInformation; 3],
    pub wall_quads: [QuadInformation; 5],
}

/// The smaller of two mathematical integers.
pub open spec fn spec_min2(a: int, b: int) -> int {
    if a <= b {
        a
    } else {
        b
    }
}

/// The cube's bounding-sphere radius: `sqrt(3 * (side / 2)^2)`, half the
/// space diagonal, which contains the cube in every orientation.
pub open spec fn spec_semi_diagonal(side: int) -> int {
    let half = spec_mul(side, FX_HALF as int);
    spec_sqrt(spec_mul(3 * FX_ONE as int, spec_mul(half, half)))
}

/// One axis of collision resolution, applied to an already-integrated
/// center `c0`: first the low wall, then the high wall.  A hit clamps the
/// center onto the wall (offset by the semi-diagonal `sd`) and flips the
/// velocity component.
pub open spec fn spec_axis_resolve(c0: int, v0: int, b: int, sd: int) -> (int, int) {
    let low_hit = spec_sub(c0, sd) <= spec_neg(b);
    let c1 = if low_hit {
        spec_add(spec_neg(b), sd)
    } else {
        c0
    };
    let v1 = if low_hit {
        spec_neg(v0)
    } else {
        v0
    };
    let high_hit = spec_add(c1, sd) >= b;
    let c2 = if high_hit {
        spec_sub(b, sd)
    } else {
        c1
    };
    let v2 = if high_hit {
        spec_neg(v1)
    } else {
        v1
    };
    (c2, v2)
}

/// The cube center after one Euler step, before collision resolution.
pub open spec fn spec_moved_center(cube: CubeInformation, dt: int) -> Vec3 {
    spec_v3_add(cube.center, spec_v3_scale(cube.velocity, dt))
}

/// The fixed orbital offset of light `index`.
pub open spec fn spec_light_relative_angle(index: int) -> int {
    if index == 0 {
        0
    } else if index == 1 {
        FX_TWO_THIRDS_PI as int
    } else {
        FX_FOUR_THIRDS_PI as int
    }
}

/// Light `post` is light `pre` moved onto the orbit position for the given
/// absolute angle and radius; everything but the position's x and y is kept.
pub open spec fn spec_light_orbited(
    pre: PointLightInformation,
    post: PointLightInformation,
    radius: int,
    angle: int,
) -> bool {
    &&& post.position.x as int == spec_mul(radius, spec_cos(angle))
    &&& post.position.y as int == spec_mul(radius, spec_sin(angle))
    &&& post.position.z == pre.position.z
    &&& post.ambient_light == pre.ambient_light
    &&& post.diffuse_light == pre.diffuse_light
    &&& post.specular_light == pre.specular_light
    &&& post.constant_attenuation == pre.constant_attenuation
    &&& post.linear_attenuation == pre.linear_attenuation
    &&& post.quadratic_attenuation == pre.quadratic_attenuation
}

/// The exact effect of `update(dt)` on the scene model.
pub open spec fn spec_is_updated(
    pre: BouncingCubeSceneInformation,
    post: BouncingCubeSceneInformation,
    dt: int,
) -> bool {
    let moved = spec_moved_center(pre.cube, dt);
    let sd = spec_semi_diagonal(pre.cube.side_length as int);
    let angle = spec_add(pre.point_light_rotation_angle as int, spec_mul(FX_PI_2 as int, dt));
    &&& post.cube.rotation_angle as int == spec_add(
        pre.cube.rotation_angle as int,
        spec_mul(FX_PI_4 as int, dt),
    )
    &&& post.point_light_rotation_angle as int == angle
    &&& spec_light_orbited(
        pre.lights[0],
        post.lights[0],
        pre.point_light_distance_from_center as int,
        spec_add(angle, spec_light_relative_angle(0)),
    )
    &&& spec_light_orbited(
        pre.lights[1],
        post.lights[1],
        pre.point_light_distance_from_center as int,
        spec_add(angle, spec_light_relative_angle(1)),
    )
    &&& spec_light_orbited(
        pre.lights[2],
        post.lights[2],
        pre.point_light_distance_from_center as int,
        spec_add(angle, spec_light_relative_angle(2)),
    )
    &&& (post.cube.center.x as int, post.cube.velocity.x as int) == spec_axis_resolve(
        moved.x as int,
        pre.cube.velocity.x as int,
        pre.scene_bounds.x as int,
        sd,
    )
    &&& (post.cube.center.y as int, post.cube.velocity.y as int) == spec_axis_resolve(
        moved.y as int,
        pre.cube.velocity.y as int,
        pre.scene_bounds.y as int,
        sd,
    )
    &&& (post.cube.center.z as int, post.cube.velocity.z as int) == spec_axis_resolve(
        moved.z as int,
        pre.cube.velocity.z as int,
        pre.scene_bounds.z as int,
        sd,
    )
    &&& post.window_size == pre.window_size
    &&& post.scene_camera == pre.scene_camera
    &&& post.scene_bounds == pre.scene_bounds
    &&& post.ambient_light == pre.ambient_light
    &&& post.cube.side_length == pre.cube.side_length
    &&& post.cube.axis_of_rotation == pre.cube.axis_of_rotation
    &&& post.cube.quads == pre.cube.quads
    &&& post.point_light_distance_from_center == pre.point_light_distance_from_center
    &&& post.wall_quads == pre.wall_quads
}

/// The exact effect of `resize(width, height)` on the scene model: a new
/// camera aspect ratio and transform, a rederived x-bound and light orbit
/// radius — and an untouched cube, the known resize limitation.
pub open spec fn spec_is_resized(
    pre: BouncingCubeSceneInformation,
    post: BouncingCubeSceneInformation,
    width: int,
    height: int,
) -> bool {
    let aspect = spec_div(width, height);
    &&& post.scene_camera.aspect_ratio as int == aspect
    &&& post.scene_camera.field_of_view == pre.scene_camera.field_of_view
    &&& post.scene_camera.near_plane_distance == pre.scene_camera.near_plane_distance
    &&& post.scene_camera.far_plane_distance == pre.scene_camera.far_plane_distance
    &&& post.scene_camera.position == pre.scene_camera.position
    &&& post.scene_camera.look_direction == pre.scene_camera.look_direction
    &&& post.scene_camera.up_direction == pre.scene_camera.up_direction
    &&& post.scene_camera.right_direction == pre.scene_camera.right_direction
    &&& post.scene_camera.yaw == pre.scene_camera.yaw
    &&& post.scene_camera.pitch == pre.scene_camera.pitch
    &&& is_consistent(post.scene_camera)
    &&& post.scene_bounds.x as int == spec_mul(pre.scene_bounds.y as int, aspect)
    &&& post.scene_bounds.y == pre.scene_bounds.y
    &&& post.scene_bounds.z == pre.scene_bounds.z
    &&& post.point_light_distance_from_center as int == spec_div(
        spec_min2(post.scene_bounds.y as int, post.scene_bounds.x as int),
        FX_THREE as int,
    )
    &&& post.window_size == pre.window_size
    &&& post.ambient_light == pre.ambient_light
    &&& post.cube == pre.cube
    &&& post.point_light_rotation_angle == pre.point_light_rotation_angle
    &&& post.lights == pre.lights
    &&& post.wall_quads == pre.wall_quads
}

/// A direction sample: each component uniformly drawn from `[0, 1)`.
pub open spec fn spec_box_sample(s: Vec3) -> bool {
    &&& 0 <= s.x < FX_ONE
    &&& 0 <= s.y < FX_ONE
    &&& 0 <= s.z < FX_ONE
}

/// The room's y half-extent at construction: `tan(fov / 2)` times the
/// distance from the camera to the room's near face at `z = -1`, with the
/// construction-time field of view of `pi / 2`.
pub open spec fn spec_default_y_bound() -> int {
    let half = spec_mul(FX_PI_2 as int, FX_HALF as int);
    let tan_half = spec_div(spec_sin(half), spec_cos(half));
    spec_mul(tan_half, spec_sub(spec_neg(FX_ONE as int), CAMERA_START_Z as int))
}

/// The diffuse color of cube face `index`: the faces come in axis pairs of
/// red, green, and blue.
pub open spec fn spec_face_color(index: int) -> Vec3 {
    if index < 2 {
        Vec3 { x: FX_ONE, y: FX_TENTH, z: FX_TENTH }
    } else if index < 4 {
        Vec3 { x: FX_TENTH, y: FX_ONE, z: FX_TENTH }
    } else {
        Vec3 { x: FX_TENTH, y: FX_TENTH, z: FX_ONE }
    }
}

/// The material of cube face `index`.
pub open spec fn spec_face_quad(index: int) -> QuadInformation {
    QuadInformation {
        ambient_color: spec_face_color(index),
        diffuse_color: spec_face_color(index),
        specular_color: Vec3 { x: FX_ONE, y: FX_ONE, z: FX_ONE },
        shininess: SHININESS,
    }
}

/// The material of every wall: a mid grey.
pub open spec fn spec_wall_quad() -> QuadInformation {
    QuadInformation {
        ambient_color: Vec3 { x: FX_GREY, y: FX_GREY, z: FX_GREY },
        diffuse_color: Vec3 { x: FX_GREY, y: FX_GREY, z: FX_GREY },
        specular_color: Vec3 { x: FX_ONE, y: FX_ONE, z: FX_ONE },
        shininess: SHININESS,
    }
}

/// The diffuse color of light `index`: one red, one green, one blue.
pub open spec fn spec_light_diffuse(index: int) -> Vec3 {
    if index == 0 {
        Vec3 { x: FX_ONE, y: FX_TENTH, z: FX_TENTH }
    } else if index == 1 {
        Vec3 { x: FX_TENTH, y: FX_ONE, z: FX_TENTH }
    } else {
        Vec3 { x: FX_TENTH, y: FX_TENTH, z: FX_ONE }
    }
}

/// Light `index` at construction: on its orbit at angle zero, with its
/// fixed colors and attenuation coefficients.
pub open spec fn spec_initial_light(index: int, radius: int) -> PointLightInformation {
    let rel = spec_light_relative_angle(index);
    PointLightInformation {
        position: Vec3 {
            x: spec_mul(radius, spec_cos(rel)) as i64,
            y: spec_mul(radius, spec_sin(rel)) as i64,
            z: LIGHT_PLANE_Z,
        },
        ambient_light: Vec3 { x: FX_TENTH, y: FX_TENTH, z: FX_TENTH },
        diffuse_light: spec_light_diffuse(index),
        specular_light: Vec3 { x: FX_ONE, y: FX_ONE, z: FX_ONE },
        constant_attenuation: ATTENUATION_CONSTANT,
        linear_attenuation: ATTENUATION_LINEAR,
        quadratic_attenuation: ATTENUATION_QUADRATIC,
    }
}

impl BouncingCubeSceneInformation {
    /// A fresh scene for a surface of the given size: a consistent camera,
    /// room bounds that exactly fill its view at distance one from the
    /// origin, the cube at a random interior position with a random
    /// velocity and spin, and three orbiting lights.  The aspect ratio
    /// must exceed the cube's semi-diagonal so that the room has interior
    /// room to place the cube on every axis.
    #[verifier::rlimit(100)]
    pub fn new(width: i64, height: i64) -> (r: Self)
        requires
            height != 0,
            spec_div(width as int, height as int) > spec_semi_diagonal(
                DEFAULT_SIDE_LENGTH as int,
            ),
        ensures
            r.window_size[0] == width,
            r.window_size[1] == height,
            r.scene_camera.field_of_view == FX_PI_2,
            r.scene_camera.aspect_ratio as int == spec_div(width as int, height as int),
            r.scene_camera.near_plane_distance == NEAR_PLANE,
            r.scene_camera.far_plane_distance == FAR_PLANE,
            r.scene_camera.position == (Vec3 { x: 0, y: 0, z: CAMERA_START_Z }),
            r.scene_camera.look_direction == (Vec3 { x: 0, y: 0, z: FX_ONE }),
            r.scene_camera.up_direction == (Vec3 { x: 0, y: -65536i64, z: 0 }),
            is_consistent(r.scene_camera),
            r.scene_bounds.y as int == spec_default_y_bound(),
            r.scene_bounds.z == FX_ONE,
            r.scene_bounds.x as int == spec_mul(
                spec_default_y_bound(),
                spec_div(width as int, height as int),
            ),
            r.ambient_light == (Vec3 { x: FX_TENTH, y: FX_TENTH, z: FX_TENTH }),
            r.cube.side_length == DEFAULT_SIDE_LENGTH,
            ({
                let sd = spec_semi_diagonal(DEFAULT_SIDE_LENGTH as int);
                &&& spec_add(spec_neg(r.scene_bounds.x as int), sd) <= r.cube.center.x as int
                &&& (r.cube.center.x as int) < spec_sub(r.scene_bounds.x as int, sd)
                &&& spec_add(spec_neg(r.scene_bounds.y as int), sd) <= r.cube.center.y as int
                &&& (r.cube.center.y as int) < spec_sub(r.scene_bounds.y as int, sd)
                &&& spec_add(spec_neg(r.scene_bounds.z as int), sd) <= r.cube.center.z as int
                &&& (r.cube.center.z as int) < spec_sub(r.scene_bounds.z as int, sd)
            }),
            exists|s: Vec3|
                #![auto]
                spec_box_sample(s) && r.cube.velocity == spec_v3_scale(
                    spec_v3_normalize(s),
                    START_SPEED as int,
                ),
            0 <= r.cube.rotation_angle < FX_TWO_PI,
            exists|s: Vec3| #![auto] spec_box_sample(s) && r.cube.axis_of_rotation
                == spec_v3_normalize(s),
            r.cube.quads[0] == spec_face_quad(0),
            r.cube.quads[1] == spec_face_quad(1),
            r.cube.quads[2] == spec_face_quad(2),
            r.cube.quads[3] == spec_face_quad(3),
            r.cube.quads[4] == spec_face_quad(4),
            r.cube.quads[5] == spec_face_quad(5),
            r.wall_quads[0] == spec_wall_quad(),
            r.wall_quads[1] == spec_wall_quad(),
            r.wall_quads[2] == spec_wall_quad(),
            r.wall_quads[3] == spec_wall_quad(),
            r.wall_quads[4] == spec_wall_quad(),
            r.point_light_distance_from_center as int == spec_div(
                spec_min2(r.scene_bounds.y as int, r.scene_bounds.x as int),
                FX_THREE as int,
            ),
            r.point_light_rotation_angle == 0,
            r.lights[0] == spec_initial_light(0, r.point_light_distance_from_center as int),
            r.lights[1] == spec_initial_light(1, r.point_light_distance_from_center as int),
            r.lights[2] == spec_initial_light(2, r.point_light_distance_from_center as int),
    {
        let field_of_view: i64 = FX_PI_2;
        let aspect_ratio: i64 = fx_div(width, height);
        proof {
            lemma_construction_trig();
            lemma_default_semi_diagonal();
        }
        let scene_camera = Camera::new(field_of_view, aspect_ratio);
        let half: i64 = fx_mul(field_of_view, FX_HALF);
        let tan_half: i64 = fx_div(fx_sin(half), fx_cos(half));
        let y_bound: i64 = fx_mul(tan_half, fx_sub(fx_neg(FX_ONE), scene_camera.position.z));
        let x_bound: i64 = fx_mul(y_bound, aspect_ratio);
        let z_bound: i64 = FX_ONE;
        let side_length: i64 = DEFAULT_SIDE_LENGTH;
        let cube_semi_diagonal_length: i64 = semi_diagonal_of(side_length);
        proof {
            assert(y_bound == 65537);
            lemma_default_x_bound_dominates(aspect_ratio as int);
        }
        let center = Vec3 {
            x: random_in_range(
                fx_add(fx_neg(x_bound), cube_semi_diagonal_length),
                fx_sub(x_bound, cube_semi_diagonal_length),
            ),
            y: random_in_range(
                fx_add(fx_neg(y_bound), cube_semi_diagonal_length),
                fx_sub(y_bound, cube_semi_diagonal_length),
            ),
            z: random_in_range(
                fx_add(fx_neg(z_bound), cube_semi_diagonal_length),
                fx_sub(z_bound, cube_semi_diagonal_length),
            ),
        };
        let velocity: Vec3 = random_unit_vector().scale(START_SPEED);
        let rotation_angle: i64 = random_in_range(0, FX_TWO_PI);
        let axis_of_rotation: Vec3 = random_unit_vector();
        let red = Vec3 { x: FX_ONE, y: FX_TENTH, z: FX_TENTH };
        let green = Vec3 { x: FX_TENTH, y: FX_ONE, z: FX_TENTH };
        let blue = Vec3 { x: FX_TENTH, y: FX_TENTH, z: FX_ONE };
        let grey = Vec3 { x: FX_GREY, y: FX_GREY, z: FX_GREY };
        let cube = CubeInformation {
            center,
            side_length,
            velocity,
            rotation_angle,
            axis_of_rotation,
            quads: [
                make_quad(red),
                make_quad(red),
                make_quad(green),
                make_quad(green),
                make_quad(blue),
                make_quad(blue),
            ],
        };
        let point_light_distance_from_center: i64 = fx_div(fx_min(y_bound, x_bound), FX_THREE);
        Self {
            window_size: [width, height],
            scene_camera,
            scene_bounds: Vec3 { x: x_bound, y: y_bound, z: z_bound },
            ambient_light: Vec3 { x: FX_TENTH, y: FX_TENTH, z: FX_TENTH },
            cube,
            point_light_distance_from_center,
            point_light_rotation_angle: 0,
            lights: [
                initial_light(0, point_light_distance_from_center, red),
                initial_light(1, point_light_distance_from_center, green),
                initial_light(2, point_light_distance_from_center, blue),
            ],
            wall_quads: [
                make_quad(grey),
                make_quad(grey),
                make_quad(grey),
                make_quad(grey),
                make_quad(grey),
            ],
        }
    }

    /// Advance the scene by `dt` fixed-point seconds: spin the cube, orbit
    /// the lights, integrate the cube center, and resolve wall collisions
    /// per axis against the cube's bounding sphere.
    pub fn update(&mut self, dt: i64)
        ensures
            spec_is_updated(*old(self), *final(self), dt as int),
    {
        self.cube.rotation_angle = fx_add(self.cube.rotation_angle, fx_mul(FX_PI_4, dt));
        self.point_light_rotation_angle = fx_add(
            self.point_light_rotation_angle,
            fx_mul(FX_PI_2, dt),
        );
        self.cube.center = self.cube.center.plus(self.cube.velocity.scale(dt));
        let radius: i64 = self.point_light_distance_from_center;
        let l0: PointLightInformation = orbit_light(
            &self.lights[0],
            radius,
            fx_add(self.point_light_rotation_angle, 0),
        );
        let l1: PointLightInformation = orbit_light(
            &self.lights[1],
            radius,
            fx_add(self.point_light_rotation_angle, FX_TWO_THIRDS_PI),
        );
        let l2: PointLightInformation = orbit_light(
            &self.lights[2],
            radius,
            fx_add(self.point_light_rotation_angle, FX_FOUR_THIRDS_PI),
        );
        self.lights = [l0, l1, l2];
        let sd: i64 = self.semi_diagonal();
        if fx_sub(self.cube.center.x, sd) <= fx_neg(self.scene_bounds.x) {
            self.cube.center.x = fx_add(fx_neg(self.scene_bounds.x), sd);
            self.cube.velocity.x = fx_neg(self.cube.velocity.x);
        }
        if fx_add(self.cube.center.x, sd) >= self.scene_bounds.x {
            self.cube.center.x = fx_sub(self.scene_bounds.x, sd);
            self.cube.velocity.x = fx_neg(self.cube.velocity.x);
        }
        if fx_sub(self.cube.center.y, sd) <= fx_neg(self.scene_bounds.y) {
            self.cube.center.y = fx_add(fx_neg(self.scene_bounds.y), sd);
            self.cube.velocity.y = fx_neg(self.cube.velocity.y);
        }
        if fx_add(self.cube.center.y, sd) >= self.scene_bounds.y {
            self.cube.center.y = fx_sub(self.scene_bounds.y, sd);
            self.cube.velocity.y = fx_neg(self.cube.velocity.y);
        }
        if fx_sub(self.cube.center.z, sd) <= fx_neg(self.scene_bounds.z) {
            self.cube.center.z = fx_add(fx_neg(self.scene_bounds.z), sd);
            self.cube.velocity.z = fx_neg(self.cube.velocity.z);
        }
        if fx_add(self.cube.center.z, sd) >= self.scene_bounds.z {
            self.cube.center.z = fx_sub(self.scene_bounds.z, sd);
            self.cube.velocity.z = fx_neg(self.cube.velocity.z);
        }
    }

    /// Recompute the camera for a new surface size and rederive the room's
    /// x-bound and the light orbit radius.  The cube is not re-clamped.
    pub fn resize(&mut self, width: i64, height: i64)
        requires
            spec_projection_ok(
                old(self).scene_camera.field_of_view as int,
                spec_div(width as int, height as int),
                old(self).scene_camera.near_plane_distance as int,
                old(self).scene_camera.far_plane_distance as int,
            ),
            height != 0,
        ensures
            spec_is_resized(*old(self), *final(self), width as int, height as int),
    {
        self.scene_camera.aspect_ratio = fx_div(width, height);
        self.scene_camera.recalculate_transformation_and_view_planes();
        self.scene_bounds.x = fx_mul(self.scene_bounds.y, self.scene_camera.aspect_ratio);
        self.point_light_distance_from_center = fx_div(
            fx_min(self.scene_bounds.y, self.scene_bounds.x),
            FX_THREE,
        );
    }

    /// The cube's current bounding-sphere radius.
    pub fn semi_diagonal(&self) -> (r: i64)
        ensures
            r as int == spec_semi_diagonal(self.cube.side_length as int),
            r >= 0,
    {
        semi_diagonal_of(self.cube.side_length)
    }
}

/// The cube's bounding-sphere radius for a given side length.
pub fn semi_diagonal_of(side: i64) -> (r: i64)
    ensures
        r as int == spec_semi_diagonal(side as int),
        r >= 0,
{
    let half: i64 = fx_mul(side, FX_HALF);
    let half_sq: i64 = fx_mul(half, half);
    proof {
        assert((half as int) * (half as int) >= 0) by (nonlinear_arith);
    }
    let scaled: i64 = fx_mul(FX_THREE, half_sq);
    proof {
        assert((FX_THREE as int) * (half_sq as int) >= 0) by (nonlinear_arith)
            requires
                half_sq >= 0,
        ;
    }
    fx_sqrt(scaled)
}

/// A random direction: a sample of the unit box, normalized.  A zero
/// sample (already a degenerate draw) stays zero.
fn random_unit_vector() -> (r: Vec3)
    ensures
        exists|s: Vec3| #![auto] spec_box_sample(s) && r == spec_v3_normalize(s),
{
    let sample = Vec3 {
        x: random_in_range(0, FX_ONE),
        y: random_in_range(0, FX_ONE),
        z: random_in_range(0, FX_ONE),
    };
    let r = sample.normalize();
    proof {
        assert(spec_box_sample(sample) && r == spec_v3_normalize(sample));
    }
    r
}

/// A quad whose ambient and diffuse colors are `color`, with the shared
/// white specular color and shininess.
fn make_quad(color: Vec3) -> (r: QuadInformation)
    ensures
        r == (QuadInformation {
            ambient_color: color,
            diffuse_color: color,
            specular_color: Vec3 { x: FX_ONE, y: FX_ONE, z: FX_ONE },
            shininess: SHININESS,
        }),
{
    QuadInformation {
        ambient_color: color,
        diffuse_color: color,
        specular_color: Vec3 { x: FX_ONE, y: FX_ONE, z: FX_ONE },
        shininess: SHININESS,
    }
}

/// Light `index` at construction, on its orbit at angle zero.
fn initial_light(index: i64, radius: i64, diffuse: Vec3) -> (r: PointLightInformation)
    requires
        0 <= index < 3,
        diffuse == spec_light_diffuse(index as int),
    ensures
        r == spec_initial_light(index as int, radius as int),
{
    let rel: i64 = if index == 0 {
        0
    } else if index == 1 {
        FX_TWO_THIRDS_PI
    } else {
        FX_FOUR_THIRDS_PI
    };
    PointLightInformation {
        position: Vec3 {
            x: fx_mul(radius, fx_cos(rel)),
            y: fx_mul(radius, fx_sin(rel)),
            z: LIGHT_PLANE_Z,
        },
        ambient_light: Vec3 { x: FX_TENTH, y: FX_TENTH, z: FX_TENTH },
        diffuse_light: diffuse,
        specular_light: Vec3 { x: FX_ONE, y: FX_ONE, z: FX_ONE },
        constant_attenuation: ATTENUATION_CONSTANT,
        linear_attenuation: ATTENUATION_LINEAR,
        quadratic_attenuation: ATTENUATION_QUADRATIC,
    }
}

/// The concrete trigonometry of construction: the half field of view, the
/// sine and cosine there, and the y half-extent they produce.
pub proof fn lemma_construction_trig()
    ensures
        spec_mul(FX_PI_2 as int, FX_HALF as int) == 51472,
        spec_sin(51472) == 46344,
        spec_cos(51472) == 46343,
        spec_default_y_bound() == 65537,
{
    crate::trig::lemma_quarter_angle_values();
    lemma_div_trunc_value(3037200384, 46343, 65537, 19193);
    assert(spec_div(46344, 46343) == 65537);
    assert(spec_sub(spec_neg(FX_ONE as int), CAMERA_START_Z as int) == 65536);
    lemma_div_trunc_value(4295032832, 65536, 65537, 0);
    assert(spec_mul(65537, 65536) == 65537);
    assert(spec_default_y_bound() == 65537);
}

/// The bounding-sphere radius of the construction-time cube.
pub proof fn lemma_default_semi_diagonal()
    ensures
        spec_semi_diagonal(DEFAULT_SIDE_LENGTH as int) == 5661,
{
    lemma_div_trunc_value(214761472, 65536, 3277, 0);
    assert(spec_mul(6554, 32768) == 3277);
    lemma_div_trunc_value(10738729, 65536, 163, 56361);
    assert(spec_mul(3277, 3277) == 163);
    lemma_div_trunc_value(32047104, 65536, 489, 0);
    assert(spec_mul(196608, 163) == 489);
    assert(crate::fixed::is_sqrt_floor(32047104, 5661));
    crate::fixed::lemma_sqrt_floor_unique(32047104, 5661);
    assert(spec_sqrt(489) == 5661);
    assert(spec_semi_diagonal(DEFAULT_SIDE_LENGTH as int) == 5661);
}

/// Scaling the construction-time y half-extent (one plus one part in
/// `2^16`) by a nonnegative aspect ratio never shrinks it below the aspect
/// ratio itself.
proof fn lemma_default_x_bound_dominates(a: int)
    requires
        0 <= a <= i64::MAX as int,
    ensures
        spec_mul(65537, a) >= a,
{
    let d = 65536;
    let q = a / d;
    let m = a % d;
    vstd::arithmetic::div_mod::lemma_fundamental_div_mod(a, d);
    assert(65537 * a == d * (a + q) + m) by (nonlinear_arith)
        requires
            a == d * q + m && d == 65536,
    ;
    vstd::arithmetic::div_mod::lemma_div_multiples_vanish_fancy(a + q, m, d);
    assert(65537 * a >= 0) by (nonlinear_arith)
        requires
            a >= 0,
    ;
    assert(crate::fixed::div_trunc(65537 * a, d) == (65537 * a) / d);
    assert((65537 * a) / d == a + q);
}

/// The given light moved onto the orbit position for `angle` and `radius`.
fn orbit_light(light: &PointLightInformation, radius: i64, angle: i64) -> (r: PointLightInformation)
    ensures
        spec_light_orbited(*light, r, radius as int, angle as int),
{
    PointLightInformation {
        position: Vec3 {
            x: fx_mul(radius, fx_cos(angle)),
            y: fx_mul(radius, fx_sin(angle)),
            z: light.position.z,
        },
        ambient_light: light.ambient_light,
        diffuse_light: light.diffuse_light,
        specular_light: light.specular_light,
        constant_attenuation: light.constant_attenuation,
        linear_attenuation: light.linear_attenuation,
        quadratic_attenuation: light.quadratic_attenuation,
    }
}


/// The bounding sphere never rests past a wall: one axis of collision
/// resolution leaves the center within `bound - sd` of the origin whenever
/// the semi-diagonal fits the room at all.
pub proof fn lemma_axis_resolve_in_bounds(c0: int, v0: int, b: int, sd: int)
    requires
        crate::fixed::in_i64(c0),
        crate::fixed::in_i64(v0),
        0 <= sd <= b <= i64::MAX as int,
    ensures
        -(b - sd) <= spec_axis_resolve(c0, v0, b, sd).0 <= b - sd,
{
}

/// Collision reflection: when the integrated center has reached a wall,
/// resolution puts it exactly on the wall (offset by the semi-diagonal)
/// and flips the velocity component's sign.
pub proof fn lemma_axis_resolve_reflects(c0: int, v0: int, b: int, sd: int)
    requires
        crate::fixed::in_i64(c0),
        crate::fixed::in_i64(v0),
        0 <= sd < b <= i64::MAX as int,
    ensures
        spec_sub(c0, sd) <= spec_neg(b) ==> spec_axis_resolve(c0, v0, b, sd) == (
            spec_add(spec_neg(b), sd),
            spec_neg(v0),
        ),
        spec_add(c0, sd) >= b ==> spec_axis_resolve(c0, v0, b, sd) == (
            spec_sub(b, sd),
            spec_neg(v0),
        ),
{
}

/// After any `update`, the cube's bounding sphere (radius the cube's
/// semi-diagonal) rests inside every wall of a room large enough to hold
/// it, whatever the time step.
pub proof fn lemma_update_keeps_cube_inside(
    pre: BouncingCubeSceneInformation,
    post: BouncingCubeSceneInformation,
    dt: int,
)
    requires
        spec_is_updated(pre, post, dt),
        spec_semi_diagonal(pre.cube.side_length as int) <= pre.scene_bounds.x as int,
        spec_semi_diagonal(pre.cube.side_length as int) <= pre.scene_bounds.y as int,
        spec_semi_diagonal(pre.cube.side_length as int) <= pre.scene_bounds.z as int,
    ensures
        ({
            let sd = spec_semi_diagonal(post.cube.side_length as int);
            &&& abs_int(post.cube.center.x as int) + sd <= post.scene_bounds.x as int
            &&& abs_int(post.cube.center.y as int) + sd <= post.scene_bounds.y as int
            &&& abs_int(post.cube.center.z as int) + sd <= post.scene_bounds.z as int
        }),
{
    let sd = spec_semi_diagonal(pre.cube.side_length as int);
    let moved = spec_moved_center(pre.cube, dt);
    crate::fixed::lemma_sqrt_floor_nonneg(
        spec_mul(3 * FX_ONE as int, spec_mul(spec_mul(pre.cube.side_length as int,
            FX_HALF as int), spec_mul(pre.cube.side_length as int, FX_HALF as int)))
        * FX_ONE as int,
    );
    assert(sd >= 0);
    lemma_axis_resolve_in_bounds(moved.x as int, pre.cube.velocity.x as int,
        pre.scene_bounds.x as int, sd);
    lemma_axis_resolve_in_bounds(moved.y as int, pre.cube.velocity.y as int,
        pre.scene_bounds.y as int, sd);
    lemma_axis_resolve_in_bounds(moved.z as int, pre.cube.velocity.z as int,
        pre.scene_bounds.z as int, sd);
}

/// Collision reflection at the scene level: on any axis whose projected
/// next position has reached a wall, `update` leaves the center exactly on
/// that wall (offset by the semi-diagonal) and flips that velocity
/// component's sign.
pub proof fn lemma_update_reflects_velocity(
    pre: BouncingCubeSceneInformation,
    post: BouncingCubeSceneInformation,
    dt: int,
)
    requires
        spec_is_updated(pre, post, dt),
        spec_semi_diagonal(pre.cube.side_length as int) < pre.scene_bounds.x as int,
        spec_semi_diagonal(pre.cube.side_length as int) < pre.scene_bounds.y as int,
        spec_semi_diagonal(pre.cube.side_length as int) < pre.scene_bounds.z as int,
    ensures
        ({
            let sd = spec_semi_diagonal(pre.cube.side_length as int);
            let moved = spec_moved_center(pre.cube, dt);
            &&& spec_add(moved.x as int, sd) >= pre.scene_bounds.x as int ==> {
                &&& post.cube.center.x as int == spec_sub(pre.scene_bounds.x as int, sd)
                &&& post.cube.velocity.x as int == spec_neg(pre.cube.velocity.x as int)
            }
            &&& spec_sub(moved.x as int, sd) <= spec_neg(pre.scene_bounds.x as int) ==> {
                &&& post.cube.center.x as int == spec_add(
                    spec_neg(pre.scene_bounds.x as int),
                    sd,
                )
                &&& post.cube.velocity.x as int == spec_neg(pre.cube.velocity.x as int)
            }
            &&& spec_add(moved.y as int, sd) >= pre.scene_bounds.y as int ==> {
                &&& post.cube.center.y as int == spec_sub(pre.scene_bounds.y as int, sd)
                &&& post.cube.velocity.y as int == spec_neg(pre.cube.velocity.y as int)
            }
            &&& spec_sub(moved.y as int, sd) <= spec_neg(pre.scene_bounds.y as int) ==> {
                &&& post.cube.center.y as int == spec_add(
                    spec_neg(pre.scene_bounds.y as int),
                    sd,
                )
                &&& post.cube.velocity.y as int == spec_neg(pre.cube.velocity.y as int)
            }
            &&& spec_add(moved.z as int, sd) >= pre.scene_bounds.z as int ==> {
                &&& post.cube.center.z as int == spec_sub(pre.scene_bounds.z as int, sd)
                &&& post.cube.velocity.z as int == spec_neg(pre.cube.velocity.z as int)
            }
            &&& spec_sub(moved.z as int, sd) <= spec_neg(pre.scene_bounds.z as int) ==> {
                &&& post.cube.center.z as int == spec_add(
                    spec_neg(pre.scene_bounds.z as int),
                    sd,
                )
                &&& post.cube.velocity.z as int == spec_neg(pre.cube.velocity.z as int)
            }
        }),
{
    let sd = spec_semi_diagonal(pre.cube.side_length as int);
    let moved = spec_moved_center(pre.cube, dt);
    crate::fixed::lemma_sqrt_floor_nonneg(
        spec_mul(3 * FX_ONE as int, spec_mul(spec_mul(pre.cube.side_length as int,
            FX_HALF as int), spec_mul(pre.cube.side_length as int, FX_HALF as int)))
        * FX_ONE as int,
    );
    assert(sd >= 0);
    lemma_axis_resolve_reflects(moved.x as int, pre.cube.velocity.x as int,
        pre.scene_bounds.x as int, sd);
    lemma_axis_resolve_reflects(moved.y as int, pre.cube.velocity.y as int,
        pre.scene_bounds.y as int, sd);
    lemma_axis_resolve_reflects(moved.z as int, pre.cube.velocity.z as int,
        pre.scene_bounds.z as int, sd);
}

/// Resizing is idempotent: a second `resize` with the same surface size
/// leaves the camera transform, the view planes, the scene bounds, and the
/// light orbit radius exactly as the first left them.
pub proof fn lemma_resize_idempotent(
    m0: BouncingCubeSceneInformation,
    m1: BouncingCubeSceneInformation,
    m2: BouncingCubeSceneInformation,
    width: int,
    height: int,
)
    requires
        spec_is_resized(m0, m1, width, height),
        spec_is_resized(m1, m2, width, height),
    ensures
        m2.scene_camera.transformation == m1.scene_camera.transformation,
        m2.scene_camera.view_planes[0] == m1.scene_camera.view_planes[0],
        m2.scene_camera.view_planes[1] == m1.scene_camera.view_planes[1],
        m2.scene_camera.view_planes[2] == m1.scene_camera.view_planes[2],
        m2.scene_camera.view_planes[3] == m1.scene_camera.view_planes[3],
        m2.scene_camera.view_planes[4] == m1.scene_camera.view_planes[4],
        m2.scene_camera.view_planes[5] == m1.scene_camera.view_planes[5],
        m2.scene_bounds == m1.scene_bounds,
        m2.point_light_distance_from_center == m1.point_light_distance_from_center,
{
    reveal(crate::camera::spec_camera_transform);
    assert(spec_camera_transform(m2.scene_camera) == spec_camera_transform(m1.scene_camera));
    assert(m2.scene_bounds.x == m1.scene_bounds.x);
}

} // verus!
