//! The instance/uniform builder and the shadow pass transforms: everything
//! a frame's draw calls consume, derived afresh from the scene model.
//!
//! All eleven drawable quads are instanced from one unit quad in the x-y
//! plane.  A constant table of local transforms places that quad on each
//! cube face (outward normals) and each wall (inward normals); the
//! rotations involved are quarter and half turns, so the table is exact.
//! Normal transforms are the inverse-transposes of the model transforms,
//! built factor-wise: translations move to the bottom row negated,
//! rotations stand for themselves, scales invert — the factorization of
//! `(A * B)` inverse-transpose into the factors' inverse-transposes.

use vstd::prelude::*;
use crate::camera::{Camera, FAR_PLANE, NEAR_PLANE, spec_camera_transform};
use crate::fixed::{FX_ONE, fx_div, spec_div};
use crate::mat4::{Mat4, spec_m4_mul, spec_m4_scale, spec_m4_translation,
    spec_m4_translation_inv_t, spec_m4_axis_angle};
use crate::model::{BouncingCubeSceneInformation, CubeInformation, PointLightInformation,
    QuadInformation, lemma_construction_trig};
use crate::trig::FX_PI_2;
use crate::vec3::{Vec3, Vec4};

verus! {

/// Fixed-point 0.5.
pub const FX_LOCAL_HALF: i64 = 32768;

/// Fixed-point 2, the wall quads' edge relative to the unit quad.
pub const FX_TWO: i64 = 131072;

/// One drawable quad's GPU-ready data: its material, its model transform,
/// and the inverse-transpose of that transform for normals.
pub struct InstanceData {
    pub shininess: i64,
    pub ambient_color: Vec3,
    pub diffuse_color: Vec3,
    pub specular_color: Vec3,
    pub object_transform: Mat4,
    pub normal_transform: Mat4,
}

/// One light's GPU-ready data: position, colors, attenuation, and the six
/// light-space view-projection transforms of the shadow pass.
pub struct LightInformationDatum {
    pub position: Vec3,
    pub ambient_color: Vec3,
    pub diffuse_color: Vec3,
    pub specular_color: Vec3,
    pub constant_attenuation: i64,
    pub linear_attenuation: i64,
    pub quadratic_attenuation: i64,
    pub camera_transforms: [Mat4; 6],
}

/// A fatal setup-time error: the shadow target cannot hold one depth layer
/// per light and view direction.
#[derive(Clone, Copy, PartialEq, Eq, Structural, Debug)]
pub struct ShadowStorageError {
    pub required_layers: u32,
    pub available_layers: u32,
}

/// How many shadow-map layers a scene with `light_count` lights renders:
/// six view directions per light.
pub fn shadow_layers_required(light_count: u32) -> (r: u32)
    requires
        light_count <= 715827882,
    ensures
        r == 6 * light_count,
{
    6 * light_count
}

/// Check at construction that the shadow target holds enough layers for
/// every light's six depth views: `Ok` with the layer count exactly when
/// the storage suffices, and otherwise the error that aborts scene setup.
pub fn validate_shadow_storage(light_count: u32, available_layers: u32) -> (r: Result<
    u32,
    ShadowStorageError,
>)
    requires
        light_count <= 715827882,
    ensures
        match r {
            Ok(n) => n == 6 * light_count && available_layers >= 6 * light_count,
            Err(e) => {
                &&& available_layers < 6 * light_count
                &&& e.required_layers == 6 * light_count
                &&& e.available_layers == available_layers
            },
        },
{
    let required: u32 = shadow_layers_required(light_count);
    if available_layers >= required {
        Ok(required)
    } else {
        Err(ShadowStorageError { required_layers: required, available_layers })
    }
}

/// The rotation by a quarter turn around x.
pub open spec fn spec_rot_x_quarter() -> Mat4 {
    Mat4 {
        c0: Vec4 { x: FX_ONE, y: 0, z: 0, w: 0 },
        c1: Vec4 { x: 0, y: 0, z: FX_ONE, w: 0 },
        c2: Vec4 { x: 0, y: -65536i64, z: 0, w: 0 },
        c3: Vec4 { x: 0, y: 0, z: 0, w: FX_ONE },
    }
}

/// The rotation by a negative quarter turn around x.
pub open spec fn spec_rot_x_neg_quarter() -> Mat4 {
    Mat4 {
        c0: Vec4 { x: FX_ONE, y: 0, z: 0, w: 0 },
        c1: Vec4 { x: 0, y: 0, z: -65536i64, w: 0 },
        c2: Vec4 { x: 0, y: FX_ONE, z: 0, w: 0 },
        c3: Vec4 { x: 0, y: 0, z: 0, w: FX_ONE },
    }
}

/// The rotation by a half turn around x.
pub open spec fn spec_rot_x_half() -> Mat4 {
    Mat4 {
        c0: Vec4 { x: FX_ONE, y: 0, z: 0, w: 0 },
        c1: Vec4 { x: 0, y: -65536i64, z: 0, w: 0 },
        c2: Vec4 { x: 0, y: 0, z: -65536i64, w: 0 },
        c3: Vec4 { x: 0, y: 0, z: 0, w: FX_ONE },
    }
}

/// The rotation by a quarter turn around y.
pub open spec fn spec_rot_y_quarter() -> Mat4 {
    Mat4 {
        c0: Vec4 { x: 0, y: 0, z: -65536i64, w: 0 },
        c1: Vec4 { x: 0, y: FX_ONE, z: 0, w: 0 },
        c2: Vec4 { x: FX_ONE, y: 0, z: 0, w: 0 },
        c3: Vec4 { x: 0, y: 0, z: 0, w: FX_ONE },
    }
}

/// The rotation by a negative quarter turn around y.
pub open spec fn spec_rot_y_neg_quarter() -> Mat4 {
    Mat4 {
        c0: Vec4 { x: 0, y: 0, z: FX_ONE, w: 0 },
        c1: Vec4 { x: 0, y: FX_ONE, z: 0, w: 0 },
        c2: Vec4 { x: -65536i64, y: 0, z: 0, w: 0 },
        c3: Vec4 { x: 0, y: 0, z: 0, w: FX_ONE },
    }
}

/// The local rotation of quad `index`: the turn that gives the unit quad
/// the face's or wall's normal.
pub open spec fn spec_local_rotation(index: int) -> Mat4 {
    if index == 0 {
        spec_rot_y_neg_quarter()
    } else if index == 1 {
        spec_rot_y_quarter()
    } else if index == 2 {
        spec_rot_x_neg_quarter()
    } else if index == 3 {
        spec_rot_x_quarter()
    } else if index == 4 {
        crate::mat4::spec_m4_identity()
    } else if index == 5 {
        spec_rot_x_half()
    } else if index == 6 {
        spec_rot_y_quarter()
    } else if index == 7 {
        spec_rot_y_neg_quarter()
    } else if index == 8 {
        spec_rot_x_quarter()
    } else if index == 9 {
        spec_rot_x_neg_quarter()
    } else {
        spec_rot_x_half()
    }
}

/// The local offset of quad `index`: half a unit out to a cube face, a
/// full unit out to a wall.
pub open spec fn spec_local_offset(index: int) -> Vec3 {
    if index == 0 {
        Vec3 { x: -32768i64, y: 0, z: 0 }
    } else if index == 1 {
        Vec3 { x: FX_LOCAL_HALF, y: 0, z: 0 }
    } else if index == 2 {
        Vec3 { x: 0, y: FX_LOCAL_HALF, z: 0 }
    } else if index == 3 {
        Vec3 { x: 0, y: -32768i64, z: 0 }
    } else if index == 4 {
        Vec3 { x: 0, y: 0, z: FX_LOCAL_HALF }
    } else if index == 5 {
        Vec3 { x: 0, y: 0, z: -32768i64 }
    } else if index == 6 {
        Vec3 { x: -65536i64, y: 0, z: 0 }
    } else if index == 7 {
        Vec3 { x: FX_ONE, y: 0, z: 0 }
    } else if index == 8 {
        Vec3 { x: 0, y: FX_ONE, z: 0 }
    } else if index == 9 {
        Vec3 { x: 0, y: -65536i64, z: 0 }
    } else {
        Vec3 { x: 0, y: 0, z: FX_ONE }
    }
}

/// The local transform of quad `index`: translate after rotate, and for
/// walls a doubling scale first.
pub open spec fn spec_local_transform(index: int) -> Mat4 {
    let tr = spec_m4_mul(
        spec_m4_translation(spec_local_offset(index)),
        spec_local_rotation(index),
    );
    if index < 6 {
        tr
    } else {
        spec_m4_mul(tr, spec_m4_scale(Vec3 { x: FX_TWO, y: FX_TWO, z: FX_TWO }))
    }
}

/// The inverse-transpose of the local transform of quad `index`, built
/// factor-wise: the translation's offset moves to the bottom row negated,
/// the rotation stands for itself, the walls' scale halves.
pub open spec fn spec_local_inv_t(index: int) -> Mat4 {
    let tr = spec_m4_mul(
        spec_m4_translation_inv_t(spec_local_offset(index)),
        spec_local_rotation(index),
    );
    if index < 6 {
        tr
    } else {
        spec_m4_mul(
            tr,
            spec_m4_scale(Vec3 { x: FX_LOCAL_HALF, y: FX_LOCAL_HALF, z: FX_LOCAL_HALF }),
        )
    }
}

/// The cube's world transform: translate to its center, rotate by its
/// axis and angle, scale to its side length.
pub open spec fn spec_cube_world(cube: CubeInformation) -> Mat4 {
    spec_m4_mul(
        spec_m4_mul(
            spec_m4_translation(cube.center),
            spec_m4_axis_angle(cube.axis_of_rotation, cube.rotation_angle as int),
        ),
        spec_m4_scale(
            Vec3 { x: cube.side_length, y: cube.side_length, z: cube.side_length },
        ),
    )
}

/// The factor-wise inverse-transpose of the cube's world transform.
pub open spec fn spec_cube_world_inv_t(cube: CubeInformation) -> Mat4 {
    let inv_side = spec_div(FX_ONE as int, cube.side_length as int) as i64;
    spec_m4_mul(
        spec_m4_mul(
            spec_m4_translation_inv_t(cube.center),
            spec_m4_axis_angle(cube.axis_of_rotation, cube.rotation_angle as int),
        ),
        spec_m4_scale(Vec3 { x: inv_side, y: inv_side, z: inv_side }),
    )
}

/// The walls' world transform: a scale to the room's half-extents.
pub open spec fn spec_wall_world(bounds: Vec3) -> Mat4 {
    spec_m4_scale(bounds)
}

/// The factor-wise inverse-transpose of the walls' world transform.
pub open spec fn spec_wall_world_inv_t(bounds: Vec3) -> Mat4 {
    spec_m4_scale(
        Vec3 {
            x: spec_div(FX_ONE as int, bounds.x as int) as i64,
            y: spec_div(FX_ONE as int, bounds.y as int) as i64,
            z: spec_div(FX_ONE as int, bounds.z as int) as i64,
        },
    )
}

/// The instance of cube face `index`: the face's material under the cube's
/// world transform composed with the face's local transform.
pub open spec fn spec_cube_instance(cube: CubeInformation, index: int) -> InstanceData {
    InstanceData {
        shininess: cube.quads[index].shininess,
        ambient_color: cube.quads[index].ambient_color,
        diffuse_color: cube.quads[index].diffuse_color,
        specular_color: cube.quads[index].specular_color,
        object_transform: spec_m4_mul(spec_cube_world(cube), spec_local_transform(index)),
        normal_transform: spec_m4_mul(spec_cube_world_inv_t(cube), spec_local_inv_t(index)),
    }
}

/// The instance of wall `index` (6 to 10): the wall's material under the
/// room's scale composed with the wall's local transform.
pub open spec fn spec_wall_instance(bounds: Vec3, quad: QuadInformation, index: int) -> InstanceData {
    InstanceData {
        shininess: quad.shininess,
        ambient_color: quad.ambient_color,
        diffuse_color: quad.diffuse_color,
        specular_color: quad.specular_color,
        object_transform: spec_m4_mul(spec_wall_world(bounds), spec_local_transform(index)),
        normal_transform: spec_m4_mul(spec_wall_world_inv_t(bounds), spec_local_inv_t(index)),
    }
}

/// The shadow pass's view direction `index`: the six cardinal directions,
/// with the straight-up and straight-down ones perturbed slightly because
/// a look direction parallel to the up vector degenerates the view basis.
pub open spec fn spec_shadow_direction(index: int) -> Vec3 {
    if index == 0 {
        Vec3 { x: -65536i64, y: 0, z: 0 }
    } else if index == 1 {
        Vec3 { x: FX_ONE, y: 0, z: 0 }
    } else if index == 2 {
        Vec3 { x: 655, y: 65529, z: 655 }
    } else if index == 3 {
        Vec3 { x: -655i64, y: -65529i64, z: -655i64 }
    } else if index == 4 {
        Vec3 { x: 0, y: 0, z: FX_ONE }
    } else {
        Vec3 { x: 0, y: 0, z: -65536i64 }
    }
}

/// The light-space view-projection transform of a light at `position`
/// rendering along shadow direction `index`: the transform of a square,
/// quarter-turn-field camera at the light.
#[verifier::opaque]
pub open spec fn spec_shadow_transform(position: Vec3, index: int) -> Mat4 {
    spec_m4_mul(
        crate::camera::spec_projection_matrix(
            FX_PI_2 as int,
            FX_ONE as int,
            NEAR_PLANE as int,
            FAR_PLANE as int,
        ),
        crate::camera::spec_view_matrix(
            position,
            spec_shadow_direction(index),
            Vec3 { x: 0, y: -65536i64, z: 0 },
        ),
    )
}

/// `r` is the GPU-ready datum of `light`: its position, colors and
/// attenuation carried over, and the six light-space shadow transforms.
pub open spec fn spec_is_light_datum(light: PointLightInformation, r: LightInformationDatum) -> bool {
    &&& r.position == light.position
    &&& r.ambient_color == light.ambient_light
    &&& r.diffuse_color == light.diffuse_light
    &&& r.specular_color == light.specular_light
    &&& r.constant_attenuation == light.constant_attenuation
    &&& r.linear_attenuation == light.linear_attenuation
    &&& r.quadratic_attenuation == light.quadratic_attenuation
    &&& forall|j: int|
        0 <= j < 6 ==> r.camera_transforms[j] == spec_shadow_transform(light.position, j)
}

/// The local rotation of quad `index`.
fn local_rotation(index: usize) -> (r: Mat4)
    requires
        index < 11,
    ensures
        r == spec_local_rotation(index as int),
{
    if index == 0 {
        Mat4 {
            c0: Vec4 { x: 0, y: 0, z: FX_ONE, w: 0 },
            c1: Vec4 { x: 0, y: FX_ONE, z: 0, w: 0 },
            c2: Vec4 { x: -FX_ONE, y: 0, z: 0, w: 0 },
            c3: Vec4 { x: 0, y: 0, z: 0, w: FX_ONE },
        }
    } else if index == 1 || index == 6 {
        Mat4 {
            c0: Vec4 { x: 0, y: 0, z: -FX_ONE, w: 0 },
            c1: Vec4 { x: 0, y: FX_ONE, z: 0, w: 0 },
            c2: Vec4 { x: FX_ONE, y: 0, z: 0, w: 0 },
            c3: Vec4 { x: 0, y: 0, z: 0, w: FX_ONE },
        }
    } else if index == 2 || index == 9 {
        Mat4 {
            c0: Vec4 { x: FX_ONE, y: 0, z: 0, w: 0 },
            c1: Vec4 { x: 0, y: 0, z: -FX_ONE, w: 0 },
            c2: Vec4 { x: 0, y: FX_ONE, z: 0, w: 0 },
            c3: Vec4 { x: 0, y: 0, z: 0, w: FX_ONE },
        }
    } else if index == 3 || index == 8 {
        Mat4 {
            c0: Vec4 { x: FX_ONE, y: 0, z: 0, w: 0 },
            c1: Vec4 { x: 0, y: 0, z: FX_ONE, w: 0 },
            c2: Vec4 { x: 0, y: -FX_ONE, z: 0, w: 0 },
            c3: Vec4 { x: 0, y: 0, z: 0, w: FX_ONE },
        }
    } else if index == 4 {
        Mat4::identity()
    } else if index == 7 {
        Mat4 {
            c0: Vec4 { x: 0, y: 0, z: FX_ONE, w: 0 },
            c1: Vec4 { x: 0, y: FX_ONE, z: 0, w: 0 },
            c2: Vec4 { x: -FX_ONE, y: 0, z: 0, w: 0 },
            c3: Vec4 { x: 0, y: 0, z: 0, w: FX_ONE },
        }
    } else {
        Mat4 {
            c0: Vec4 { x: FX_ONE, y: 0, z: 0, w: 0 },
            c1: Vec4 { x: 0, y: -FX_ONE, z: 0, w: 0 },
            c2: Vec4 { x: 0, y: 0, z: -FX_ONE, w: 0 },
            c3: Vec4 { x: 0, y: 0, z: 0, w: FX_ONE },
        }
    }
}

/// The local offset of quad `index`.
fn local_offset(index: usize) -> (r: Vec3)
    requires
        index < 11,
    ensures
        r == spec_local_offset(index as int),
{
    if index == 0 {
        Vec3 { x: -FX_LOCAL_HALF, y: 0, z: 0 }
    } else if index == 1 {
        Vec3 { x: FX_LOCAL_HALF, y: 0, z: 0 }
    } else if index == 2 {
        Vec3 { x: 0, y: FX_LOCAL_HALF, z: 0 }
    } else if index == 3 {
        Vec3 { x: 0, y: -FX_LOCAL_HALF, z: 0 }
    } else if index == 4 {
        Vec3 { x: 0, y: 0, z: FX_LOCAL_HALF }
    } else if index == 5 {
        Vec3 { x: 0, y: 0, z: -FX_LOCAL_HALF }
    } else if index == 6 {
        Vec3 { x: -FX_ONE, y: 0, z: 0 }
    } else if index == 7 {
        Vec3 { x: FX_ONE, y: 0, z: 0 }
    } else if index == 8 {
        Vec3 { x: 0, y: FX_ONE, z: 0 }
    } else if index == 9 {
        Vec3 { x: 0, y: -FX_ONE, z: 0 }
    } else {
        Vec3 { x: 0, y: 0, z: FX_ONE }
    }
}

/// The local transform of quad `index`.
fn local_transform(index: usize) -> (r: Mat4)
    requires
        index < 11,
    ensures
        r == spec_local_transform(index as int),
{
    let tr = Mat4::translation(local_offset(index)).multiply(&local_rotation(index));
    if index < 6 {
        tr
    } else {
        tr.multiply(&Mat4::scaling(Vec3 { x: FX_TWO, y: FX_TWO, z: FX_TWO }))
    }
}

/// The inverse-transpose of the local transform of quad `index`.
fn local_inv_t(index: usize) -> (r: Mat4)
    requires
        index < 11,
    ensures
        r == spec_local_inv_t(index as int),
{
    let tr = Mat4::translation_inv_t(local_offset(index)).multiply(&local_rotation(index));
    if index < 6 {
        tr
    } else {
        tr.multiply(
            &Mat4::scaling(Vec3 { x: FX_LOCAL_HALF, y: FX_LOCAL_HALF, z: FX_LOCAL_HALF }),
        )
    }
}

/// The instance of cube face `index`.
#[verifier::rlimit(100)]
fn cube_instance(cube: &CubeInformation, index: usize) -> (r: InstanceData)
    requires
        index < 6,
        cube.side_length != 0,
    ensures
        r == spec_cube_instance(*cube, index as int),
{
    let world = Mat4::translation(cube.center).multiply(
        &Mat4::axis_angle(cube.axis_of_rotation, cube.rotation_angle),
    ).multiply(
        &Mat4::scaling(
            Vec3 { x: cube.side_length, y: cube.side_length, z: cube.side_length },
        ),
    );
    let inv_side: i64 = fx_div(FX_ONE, cube.side_length);
    let world_inv_t = Mat4::translation_inv_t(cube.center).multiply(
        &Mat4::axis_angle(cube.axis_of_rotation, cube.rotation_angle),
    ).multiply(&Mat4::scaling(Vec3 { x: inv_side, y: inv_side, z: inv_side }));
    let quad = cube.quads[index];
    InstanceData {
        shininess: quad.shininess,
        ambient_color: quad.ambient_color,
        diffuse_color: quad.diffuse_color,
        specular_color: quad.specular_color,
        object_transform: world.multiply(&local_transform(index)),
        normal_transform: world_inv_t.multiply(&local_inv_t(index)),
    }
}

/// The instance of wall `index` (6 to 10).
#[verifier::rlimit(100)]
fn wall_instance(bounds: Vec3, quad: &QuadInformation, index: usize) -> (r: InstanceData)
    requires
        6 <= index < 11,
        bounds.x != 0,
        bounds.y != 0,
        bounds.z != 0,
    ensures
        r == spec_wall_instance(bounds, *quad, index as int),
{
    let world = Mat4::scaling(bounds);
    let world_inv_t = Mat4::scaling(
        Vec3 {
            x: fx_div(FX_ONE, bounds.x),
            y: fx_div(FX_ONE, bounds.y),
            z: fx_div(FX_ONE, bounds.z),
        },
    );
    InstanceData {
        shininess: quad.shininess,
        ambient_color: quad.ambient_color,
        diffuse_color: quad.diffuse_color,
        specular_color: quad.specular_color,
        object_transform: world.multiply(&local_transform(index)),
        normal_transform: world_inv_t.multiply(&local_inv_t(index)),
    }
}

/// Build the eleven drawable instances: the six cube faces in face order,
/// then the five walls in wall order — the fixed layout the index buffer
/// assumes, whatever the cube's pose.
#[verifier::rlimit(100)]
pub fn build_instances(
    cube: &CubeInformation,
    bounds: Vec3,
    wall_quads: &[QuadInformation; 5],
) -> (r: Vec<InstanceData>)
    requires
        cube.side_length != 0,
        bounds.x != 0,
        bounds.y != 0,
        bounds.z != 0,
    ensures
        r@.len() == 11,
        forall|i: int| 0 <= i < 6 ==> r@[i] == spec_cube_instance(*cube, i),
        forall|i: int| 6 <= i < 11 ==> r@[i] == spec_wall_instance(bounds, wall_quads[i - 6], i),
{
    let mut r: Vec<InstanceData> = Vec::new();
    r.push(cube_instance(cube, 0));
    r.push(cube_instance(cube, 1));
    r.push(cube_instance(cube, 2));
    r.push(cube_instance(cube, 3));
    r.push(cube_instance(cube, 4));
    r.push(cube_instance(cube, 5));
    r.push(wall_instance(bounds, &wall_quads[0], 6));
    r.push(wall_instance(bounds, &wall_quads[1], 7));
    r.push(wall_instance(bounds, &wall_quads[2], 8));
    r.push(wall_instance(bounds, &wall_quads[3], 9));
    r.push(wall_instance(bounds, &wall_quads[4], 10));
    r
}

/// The shadow pass's view direction `index`.
fn shadow_direction(index: usize) -> (r: Vec3)
    requires
        index < 6,
    ensures
        r == spec_shadow_direction(index as int),
{
    if index == 0 {
        Vec3 { x: -FX_ONE, y: 0, z: 0 }
    } else if index == 1 {
        Vec3 { x: FX_ONE, y: 0, z: 0 }
    } else if index == 2 {
        Vec3 { x: 655, y: 65529, z: 655 }
    } else if index == 3 {
        Vec3 { x: -655, y: -65529, z: -655 }
    } else if index == 4 {
        Vec3 { x: 0, y: 0, z: FX_ONE }
    } else {
        Vec3 { x: 0, y: 0, z: -FX_ONE }
    }
}

/// The light-space transform for one light and one shadow direction: a
/// square, quarter-turn-field camera placed at the light, as the shadow
/// pass renders it.
fn shadow_transform(position: Vec3, index: usize) -> (r: Mat4)
    requires
        index < 6,
    ensures
        r == spec_shadow_transform(position, index as int),
{
    proof {
        reveal(crate::instances::spec_shadow_transform);
        reveal(crate::camera::spec_camera_transform);
        lemma_construction_trig();
    }
    let mut shadow_camera = Camera::new(FX_PI_2, FX_ONE);
    shadow_camera.position = position;
    shadow_camera.look_direction = shadow_direction(index);
    shadow_camera.recalculate_transformation_and_view_planes();
    shadow_camera.transformation
}

/// The six light-space transforms of one light.
#[verifier::rlimit(100)]
fn light_shadow_transforms(position: Vec3) -> (r: [Mat4; 6])
    ensures
        forall|j: int| 0 <= j < 6 ==> r[j] == spec_shadow_transform(position, j),
{
    [
        shadow_transform(position, 0),
        shadow_transform(position, 1),
        shadow_transform(position, 2),
        shadow_transform(position, 3),
        shadow_transform(position, 4),
        shadow_transform(position, 5),
    ]
}

/// One light's GPU-ready datum, shadow transforms included.
#[verifier::rlimit(100)]
fn light_datum(light: &PointLightInformation) -> (r: LightInformationDatum)
    ensures
        spec_is_light_datum(*light, r),
{
    LightInformationDatum {
        position: light.position,
        ambient_color: light.ambient_light,
        diffuse_color: light.diffuse_light,
        specular_color: light.specular_light,
        constant_attenuation: light.constant_attenuation,
        linear_attenuation: light.linear_attenuation,
        quadratic_attenuation: light.quadratic_attenuation,
        camera_transforms: light_shadow_transforms(light.position),
    }
}

/// Build the per-light uniform data, one datum per light in light order.
#[verifier::rlimit(100)]
pub fn build_light_data(lights: &[PointLightInformation; 3]) -> (r: Vec<LightInformationDatum>)
    ensures
        r@.len() == 3,
        forall|i: int| 0 <= i < 3 ==> spec_is_light_datum(lights[i], r@[i]),
{
    let mut r: Vec<LightInformationDatum> = Vec::new();
    r.push(light_datum(&lights[0]));
    r.push(light_datum(&lights[1]));
    r.push(light_datum(&lights[2]));
    r
}

impl BouncingCubeSceneInformation {
    /// Everything one frame's draw calls consume, rebuilt from the model:
    /// the eleven instances and the three light data, in their fixed order.
    pub fn build_frame_data(&self) -> (r: (Vec<InstanceData>, Vec<LightInformationDatum>))
        requires
            self.cube.side_length != 0,
            self.scene_bounds.x != 0,
            self.scene_bounds.y != 0,
            self.scene_bounds.z != 0,
        ensures
            r.0@.len() == 11,
            forall|i: int| 0 <= i < 6 ==> r.0@[i] == spec_cube_instance(self.cube, i),
            forall|i: int|
                6 <= i < 11 ==> r.0@[i] == spec_wall_instance(
                    self.scene_bounds,
                    self.wall_quads[i - 6],
                    i,
                ),
            r.1@.len() == 3,
            forall|i: int| 0 <= i < 3 ==> spec_is_light_datum(self.lights[i], r.1@[i]),
    {
        (
            build_instances(&self.cube, self.scene_bounds, &self.wall_quads),
            build_light_data(&self.lights),
        )
    }
}

} // verus!
