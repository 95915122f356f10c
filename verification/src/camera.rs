//! A perspective camera with a yaw/pitch pose, a combined view-projection
//! transform, and the six frustum planes extracted from that transform.
//!
//! The transform and the planes are caches: they are consistent with the
//! pose exactly when `recalculate_transformation_and_view_planes` has run
//! after the last pose mutation, which the `is_consistent` predicate makes
//! precise.

use vstd::prelude::*;
use crate::fixed::{FX_HALF, FX_ONE, fx_add, fx_div, fx_mul, fx_sub, spec_add, spec_div, spec_mul,
    spec_sub};
use crate::mat4::{Mat4, spec_m4_mul, spec_m4_row0, spec_m4_row1, spec_m4_row2, spec_m4_row3};
use crate::trig::{FX_PI_2, fx_cos, fx_sin, spec_cos, spec_sin};
use crate::vec3::{
    Vec3, Vec4, spec_v3_cross, spec_v3_dot, spec_v3_length, spec_v3_normalize, spec_v4_add,
    spec_v4_sub,
};

verus! {

/// The camera's standoff: it starts two units behind the origin.
pub const CAMERA_START_Z: i64 = -131072;

/// The near plane distance, fixed-point 0.001.
pub const NEAR_PLANE: i64 = 65;

/// The far plane distance, fixed-point 1000.
pub const FAR_PLANE: i64 = 65536000;

/// A perspective camera.  `transformation` is projection times view and
/// `view_planes` are the six frustum planes (outward normals, normalized),
/// both caches over the pose fields.
pub struct Camera {
    pub field_of_view: i64,
    pub aspect_ratio: i64,
    pub near_plane_distance: i64,
    pub far_plane_distance: i64,
    pub position: Vec3,
    pub look_direction: Vec3,
    pub up_direction: Vec3,
    pub right_direction: Vec3,
    pub yaw: i64,
    pub pitch: i64,
    pub transformation: Mat4,
    pub view_planes: [Vec4; 6],
}

/// The projection parameters admit a perspective matrix: a positive aspect
/// ratio, a half-angle whose sine is nonzero, and distinct plane distances.
pub open spec fn spec_projection_ok(fov: int, aspect: int, near: int, far: int) -> bool {
    &&& aspect > 0
    &&& spec_sin(spec_mul(fov, FX_HALF as int)) != 0
    &&& near != far
}

/// The right-handed view matrix for an eye at `position` looking along
/// `look` with the given up direction.
pub open spec fn spec_view_matrix(position: Vec3, look: Vec3, up: Vec3) -> Mat4 {
    let f = spec_v3_normalize(look);
    let s = spec_v3_normalize(spec_v3_cross(f, up));
    let u = spec_v3_cross(s, f);
    Mat4 {
        c0: Vec4 { x: s.x, y: u.x, z: spec_sub(0, f.x as int) as i64, w: 0 },
        c1: Vec4 { x: s.y, y: u.y, z: spec_sub(0, f.y as int) as i64, w: 0 },
        c2: Vec4 { x: s.z, y: u.z, z: spec_sub(0, f.z as int) as i64, w: 0 },
        c3: Vec4 {
            x: spec_sub(0, spec_v3_dot(position, s)) as i64,
            y: spec_sub(0, spec_v3_dot(position, u)) as i64,
            z: spec_v3_dot(position, f) as i64,
            w: FX_ONE,
        },
    }
}

/// The right-handed perspective matrix with depth mapped to `[0, 1]`.
pub open spec fn spec_projection_matrix(fov: int, aspect: int, near: int, far: int) -> Mat4 {
    let half = spec_mul(fov, FX_HALF as int);
    let h = spec_div(spec_cos(half), spec_sin(half));
    let w = spec_div(h, aspect);
    let r = spec_div(far, spec_sub(near, far));
    Mat4 {
        c0: Vec4 { x: w as i64, y: 0, z: 0, w: 0 },
        c1: Vec4 { x: 0, y: h as i64, z: 0, w: 0 },
        c2: Vec4 { x: 0, y: 0, z: r as i64, w: -65536i64 },
        c3: Vec4 { x: 0, y: 0, z: spec_mul(r, near) as i64, w: 0 },
    }
}

/// The combined view-projection transform of a camera's current pose.
#[verifier::opaque]
pub open spec fn spec_camera_transform(c: Camera) -> Mat4 {
    spec_m4_mul(
        spec_projection_matrix(
            c.field_of_view as int,
            c.aspect_ratio as int,
            c.near_plane_distance as int,
            c.far_plane_distance as int,
        ),
        spec_view_matrix(c.position, c.look_direction, c.up_direction),
    )
}

/// Frustum plane `face` of a transform, before normalization: the last row
/// plus (even faces) or minus (odd faces) row `face / 2`.
pub open spec fn spec_raw_plane(m: Mat4, face: int) -> Vec4 {
    let last = spec_m4_row3(m);
    if face == 0 {
        spec_v4_add(last, spec_m4_row0(m))
    } else if face == 1 {
        spec_v4_sub(last, spec_m4_row0(m))
    } else if face == 2 {
        spec_v4_add(last, spec_m4_row1(m))
    } else if face == 3 {
        spec_v4_sub(last, spec_m4_row1(m))
    } else if face == 4 {
        spec_v4_add(last, spec_m4_row2(m))
    } else {
        spec_v4_sub(last, spec_m4_row2(m))
    }
}

/// A plane scaled so that its normal has unit length; a plane with a
/// zero-length normal (only a degenerate transform produces one) is kept
/// unchanged.
pub open spec fn spec_normalize_plane(p: Vec4) -> Vec4 {
    let len = spec_v3_length(Vec3 { x: p.x, y: p.y, z: p.z });
    if len == 0 {
        p
    } else {
        Vec4 {
            x: spec_div(p.x as int, len) as i64,
            y: spec_div(p.y as int, len) as i64,
            z: spec_div(p.z as int, len) as i64,
            w: spec_div(p.w as int, len) as i64,
        }
    }
}

/// Frustum plane `face` of a transform, normalized.
#[verifier::opaque]
pub open spec fn spec_view_plane(m: Mat4, face: int) -> Vec4 {
    spec_normalize_plane(spec_raw_plane(m, face))
}

/// A point is on the visible side of a plane, within `fudge` of it.
pub open spec fn spec_plane_admits(plane: Vec4, point: Vec3, fudge: int) -> bool {
    spec_add(
        spec_add(spec_v3_dot(point, Vec3 { x: plane.x, y: plane.y, z: plane.z }), plane.w as int),
        fudge,
    ) >= 0
}

/// A sphere of radius `fudge` around `point` is not entirely outside any of
/// the camera's six view planes.
pub open spec fn spec_can_see(c: Camera, point: Vec3, fudge: int) -> bool {
    &&& spec_plane_admits(c.view_planes[0], point, fudge)
    &&& spec_plane_admits(c.view_planes[1], point, fudge)
    &&& spec_plane_admits(c.view_planes[2], point, fudge)
    &&& spec_plane_admits(c.view_planes[3], point, fudge)
    &&& spec_plane_admits(c.view_planes[4], point, fudge)
    &&& spec_plane_admits(c.view_planes[5], point, fudge)
}

/// The cached transform and view planes agree with the current pose.
pub open spec fn is_consistent(c: Camera) -> bool {
    &&& c.transformation == spec_camera_transform(c)
    &&& c.view_planes[0] == spec_view_plane(c.transformation, 0)
    &&& c.view_planes[1] == spec_view_plane(c.transformation, 1)
    &&& c.view_planes[2] == spec_view_plane(c.transformation, 2)
    &&& c.view_planes[3] == spec_view_plane(c.transformation, 3)
    &&& c.view_planes[4] == spec_view_plane(c.transformation, 4)
    &&& c.view_planes[5] == spec_view_plane(c.transformation, 5)
}

/// The look direction determined by a yaw and a pitch.
pub open spec fn spec_look_from_angles(yaw: int, pitch: int) -> Vec3 {
    Vec3 {
        x: spec_sub(0, spec_mul(spec_cos(yaw), spec_cos(pitch))) as i64,
        y: spec_sin(pitch) as i64,
        z: spec_mul(spec_sin(yaw), spec_cos(pitch)) as i64,
    }
}

/// The pitch update of `rotate`: the delta applies unless the result would
/// reach or pass straight up or straight down.
pub open spec fn spec_rotated_pitch(pitch: int, delta: int) -> int {
    let candidate = spec_add(pitch, delta);
    if candidate <= -(FX_PI_2 as int) || FX_PI_2 as int <= candidate {
        pitch
    } else {
        candidate
    }
}

impl Camera {
    /// A camera at the standoff position looking down `+Z` with the given
    /// field of view and aspect ratio; its transform and view planes are
    /// computed immediately, so the camera is observed consistent.
    pub fn new(field_of_view: i64, aspect_ratio: i64) -> (r: Camera)
        requires
            spec_projection_ok(field_of_view as int, aspect_ratio as int, NEAR_PLANE as int, FAR_PLANE as int),
        ensures
            r.field_of_view == field_of_view,
            r.aspect_ratio == aspect_ratio,
            r.near_plane_distance == NEAR_PLANE,
            r.far_plane_distance == FAR_PLANE,
            r.position == (Vec3 { x: 0, y: 0, z: CAMERA_START_Z }),
            r.look_direction == (Vec3 { x: 0, y: 0, z: FX_ONE }),
            r.up_direction == (Vec3 { x: 0, y: -65536i64, z: 0 }),
            r.right_direction == (Vec3 { x: FX_ONE, y: 0, z: 0 }),
            r.yaw == FX_PI_2,
            r.pitch == 0,
            is_consistent(r),
    {
        let mut camera = Camera {
            field_of_view,
            aspect_ratio,
            near_plane_distance: NEAR_PLANE,
            far_plane_distance: FAR_PLANE,
            position: Vec3 { x: 0, y: 0, z: CAMERA_START_Z },
            look_direction: Vec3 { x: 0, y: 0, z: FX_ONE },
            up_direction: Vec3 { x: 0, y: -65536i64, z: 0 },
            right_direction: Vec3 { x: FX_ONE, y: 0, z: 0 },
            yaw: FX_PI_2,
            pitch: 0,
            transformation: Mat4::identity(),
            view_planes: [
                Vec4 { x: 0, y: 0, z: 0, w: 0 },
                Vec4 { x: 0, y: 0, z: 0, w: 0 },
                Vec4 { x: 0, y: 0, z: 0, w: 0 },
                Vec4 { x: 0, y: 0, z: 0, w: 0 },
                Vec4 { x: 0, y: 0, z: 0, w: 0 },
                Vec4 { x: 0, y: 0, z: 0, w: 0 },
            ],
        };
        camera.recalculate_transformation_and_view_planes();
        camera
    }

    /// Rotate the pose by a yaw and a pitch delta.  The pitch delta is
    /// rejected when it would reach or pass straight up or straight down;
    /// the yaw delta always applies.  The up direction does not change, and
    /// the cached transform is not refreshed: callers must invoke
    /// `recalculate_transformation_and_view_planes` before trusting it.
    pub fn rotate(&mut self, yaw: i64, pitch: i64)
        ensures
            final(self).yaw as int == spec_add(old(self).yaw as int, yaw as int),
            final(self).pitch as int == spec_rotated_pitch(old(self).pitch as int, pitch as int),
            final(self).look_direction == spec_look_from_angles(
                final(self).yaw as int,
                final(self).pitch as int,
            ),
            final(self).right_direction == spec_v3_cross(
                final(self).look_direction,
                final(self).up_direction,
            ),
            final(self).up_direction == old(self).up_direction,
            final(self).position == old(self).position,
            final(self).field_of_view == old(self).field_of_view,
            final(self).aspect_ratio == old(self).aspect_ratio,
            final(self).near_plane_distance == old(self).near_plane_distance,
            final(self).far_plane_distance == old(self).far_plane_distance,
            final(self).transformation == old(self).transformation,
            final(self).view_planes == old(self).view_planes,
    {
        let mut new_pitch: i64 = fx_add(self.pitch, pitch);
        if new_pitch <= -FX_PI_2 || FX_PI_2 <= new_pitch {
            new_pitch = self.pitch;
        }
        self.yaw = fx_add(self.yaw, yaw);
        let yaw_sin: i64 = fx_sin(self.yaw);
        let yaw_cos: i64 = fx_cos(self.yaw);
        let pitch_sin: i64 = fx_sin(new_pitch);
        let pitch_cos: i64 = fx_cos(new_pitch);
        self.look_direction = Vec3 {
            x: fx_sub(0, fx_mul(yaw_cos, pitch_cos)),
            y: pitch_sin,
            z: fx_mul(yaw_sin, pitch_cos),
        };
        self.right_direction = self.look_direction.cross(self.up_direction);
        self.pitch = new_pitch;
    }

    /// Rebuild the view-projection transform from the current pose and
    /// extract the six normalized frustum planes from it.
    pub fn recalculate_transformation_and_view_planes(&mut self)
        requires
            spec_projection_ok(
                old(self).field_of_view as int,
                old(self).aspect_ratio as int,
                old(self).near_plane_distance as int,
                old(self).far_plane_distance as int,
            ),
        ensures
            is_consistent(*final(self)),
            final(self).field_of_view == old(self).field_of_view,
            final(self).aspect_ratio == old(self).aspect_ratio,
            final(self).near_plane_distance == old(self).near_plane_distance,
            final(self).far_plane_distance == old(self).far_plane_distance,
            final(self).position == old(self).position,
            final(self).look_direction == old(self).look_direction,
            final(self).up_direction == old(self).up_direction,
            final(self).right_direction == old(self).right_direction,
            final(self).yaw == old(self).yaw,
            final(self).pitch == old(self).pitch,
    {
        proof {
            reveal(spec_camera_transform);
            reveal(spec_view_plane);
        }
        let view = self.view_matrix();
        let projection = self.projection_matrix();
        self.transformation = projection.multiply(&view);
        let p0 = normalize_plane(self.transformation.row3().plus(self.transformation.row0()));
        let p1 = normalize_plane(self.transformation.row3().minus(self.transformation.row0()));
        let p2 = normalize_plane(self.transformation.row3().plus(self.transformation.row1()));
        let p3 = normalize_plane(self.transformation.row3().minus(self.transformation.row1()));
        let p4 = normalize_plane(self.transformation.row3().plus(self.transformation.row2()));
        let p5 = normalize_plane(self.transformation.row3().minus(self.transformation.row2()));
        self.view_planes = [p0, p1, p2, p3, p4, p5];
    }

    /// The right-handed view matrix of the current pose.
    fn view_matrix(&self) -> (r: Mat4)
        ensures
            r == spec_view_matrix(self.position, self.look_direction, self.up_direction),
    {
        let f: Vec3 = self.look_direction.normalize();
        let s: Vec3 = f.cross(self.up_direction).normalize();
        let u: Vec3 = s.cross(f);
        Mat4 {
            c0: Vec4 { x: s.x, y: u.x, z: fx_sub(0, f.x), w: 0 },
            c1: Vec4 { x: s.y, y: u.y, z: fx_sub(0, f.y), w: 0 },
            c2: Vec4 { x: s.z, y: u.z, z: fx_sub(0, f.z), w: 0 },
            c3: Vec4 {
                x: fx_sub(0, self.position.dot(s)),
                y: fx_sub(0, self.position.dot(u)),
                z: self.position.dot(f),
                w: FX_ONE,
            },
        }
    }

    /// The right-handed perspective matrix of the current parameters.
    fn projection_matrix(&self) -> (r: Mat4)
        requires
            spec_projection_ok(
                self.field_of_view as int,
                self.aspect_ratio as int,
                self.near_plane_distance as int,
                self.far_plane_distance as int,
            ),
        ensures
            r == spec_projection_matrix(
                self.field_of_view as int,
                self.aspect_ratio as int,
                self.near_plane_distance as int,
                self.far_plane_distance as int,
            ),
    {
        let half: i64 = fx_mul(self.field_of_view, FX_HALF);
        let sin_half: i64 = fx_sin(half);
        let cos_half: i64 = fx_cos(half);
        let h: i64 = fx_div(cos_half, sin_half);
        let w: i64 = fx_div(h, self.aspect_ratio);
        let denom: i64 = fx_sub(self.near_plane_distance, self.far_plane_distance);
        assert(denom != 0);
        let r: i64 = fx_div(self.far_plane_distance, denom);
        let rn: i64 = fx_mul(r, self.near_plane_distance);
        Mat4 {
            c0: Vec4 { x: w, y: 0, z: 0, w: 0 },
            c1: Vec4 { x: 0, y: h, z: 0, w: 0 },
            c2: Vec4 { x: 0, y: 0, z: r, w: -65536i64 },
            c3: Vec4 { x: 0, y: 0, z: rn, w: 0 },
        }
    }

    /// Whether any point within `fudge_radius` of `point` is on the visible
    /// side of all six view planes.
    pub fn can_see(&self, point: Vec3, fudge_radius: i64) -> (r: bool)
        ensures
            r == spec_can_see(*self, point, fudge_radius as int),
    {
        plane_admits(&self.view_planes[0], point, fudge_radius)
            && plane_admits(&self.view_planes[1], point, fudge_radius)
            && plane_admits(&self.view_planes[2], point, fudge_radius)
            && plane_admits(&self.view_planes[3], point, fudge_radius)
            && plane_admits(&self.view_planes[4], point, fudge_radius)
            && plane_admits(&self.view_planes[5], point, fudge_radius)
    }
}

/// A camera fresh from `new` with a right-angle field of view and a square
/// aspect ratio: the standoff pose looking down `+Z`, with a consistent
/// transform cache.
pub open spec fn is_fresh_square_camera(c: Camera) -> bool {
    &&& c.field_of_view == FX_PI_2
    &&& c.aspect_ratio == FX_ONE
    &&& c.near_plane_distance == NEAR_PLANE
    &&& c.far_plane_distance == FAR_PLANE
    &&& c.position == (Vec3 { x: 0, y: 0, z: CAMERA_START_Z })
    &&& c.look_direction == (Vec3 { x: 0, y: 0, z: FX_ONE })
    &&& c.up_direction == (Vec3 { x: 0, y: -65536i64, z: 0 })
    &&& is_consistent(c)
}

/// The view matrix of the fresh pose, evaluated to a literal.
proof fn lemma_fresh_view_matrix()
    ensures
        spec_view_matrix(
            Vec3 { x: 0, y: 0, z: CAMERA_START_Z },
            Vec3 { x: 0, y: 0, z: FX_ONE },
            Vec3 { x: 0, y: -65536i64, z: 0 },
        ) == (Mat4 {
            c0: Vec4 { x: 65536, y: 0, z: 0, w: 0 },
            c1: Vec4 { x: 0, y: -65536i64, z: 0, w: 0 },
            c2: Vec4 { x: 0, y: 0, z: -65536i64, w: 0 },
            c3: Vec4 { x: 0, y: 0, z: -131072i64, w: 65536 },
        }),
{
    crate::fixed::lemma_div_trunc_value(0, 65536, 0, 0);
    crate::fixed::lemma_div_trunc_value(4294967296, 65536, 65536, 0);
    crate::fixed::lemma_div_trunc_value(8589934592, 65536, 131072, 0);
    assert(crate::fixed::is_sqrt_floor(4294967296, 65536));
    crate::fixed::lemma_sqrt_floor_unique(4294967296, 65536);
    let look = Vec3 { x: 0, y: 0, z: FX_ONE };
    let up = Vec3 { x: 0, y: -65536i64, z: 0 };
    assert(spec_v3_dot(look, look) == 65536);
    let f = spec_v3_normalize(look);
    assert(f == (Vec3 { x: 0, y: 0, z: FX_ONE }));
    assert(spec_v3_cross(f, up) == (Vec3 { x: FX_ONE, y: 0, z: 0 }));
    let s = spec_v3_normalize(spec_v3_cross(f, up));
    assert(s == (Vec3 { x: FX_ONE, y: 0, z: 0 }));
    assert(spec_v3_cross(s, f) == (Vec3 { x: 0, y: -65536i64, z: 0 }));
}

/// The projection matrix of the fresh parameters, evaluated to a literal.
proof fn lemma_fresh_projection_matrix()
    ensures
        spec_projection_matrix(
            FX_PI_2 as int,
            FX_ONE as int,
            NEAR_PLANE as int,
            FAR_PLANE as int,
        ) == (Mat4 {
            c0: Vec4 { x: 65534, y: 0, z: 0, w: 0 },
            c1: Vec4 { x: 0, y: 65534, z: 0, w: 0 },
            c2: Vec4 { x: 0, y: 0, z: -65536i64, w: -65536i64 },
            c3: Vec4 { x: 0, y: 0, z: -65i64, w: 0 },
        }),
{
    crate::trig::lemma_quarter_angle_values();
    crate::fixed::lemma_div_trunc_value(3037134848, 46344, 65534, 27152);
    assert(spec_div(46343, 46344) == 65534);
    crate::fixed::lemma_div_trunc_value(4294836224, 65536, 65534, 0);
    assert(spec_div(65534, 65536) == 65534);
    assert(spec_sub(NEAR_PLANE as int, FAR_PLANE as int) == -65535935);
    crate::fixed::lemma_div_trunc_value(4294967296000, 65535935, 65536, 4259840);
    assert(spec_div(65536000, -65535935) == -65536);
    crate::fixed::lemma_div_trunc_value(4259840, 65536, 65, 0);
    assert(spec_mul(-65536, 65) == -65);
}

/// The view-projection product of the fresh camera, as a literal.
proof fn lemma_fresh_transform_product()
    ensures
        spec_m4_mul(
            Mat4 {
                c0: Vec4 { x: 65534, y: 0, z: 0, w: 0 },
                c1: Vec4 { x: 0, y: 65534, z: 0, w: 0 },
                c2: Vec4 { x: 0, y: 0, z: -65536i64, w: -65536i64 },
                c3: Vec4 { x: 0, y: 0, z: -65i64, w: 0 },
            },
            Mat4 {
                c0: Vec4 { x: 65536, y: 0, z: 0, w: 0 },
                c1: Vec4 { x: 0, y: -65536i64, z: 0, w: 0 },
                c2: Vec4 { x: 0, y: 0, z: -65536i64, w: 0 },
                c3: Vec4 { x: 0, y: 0, z: -131072i64, w: 65536 },
            },
        ) == (Mat4 {
            c0: Vec4 { x: 65534, y: 0, z: 0, w: 0 },
            c1: Vec4 { x: 0, y: -65534i64, z: 0, w: 0 },
            c2: Vec4 { x: 0, y: 0, z: 65536, w: 65536 },
            c3: Vec4 { x: 0, y: 0, z: 131007, w: 131072 },
        }),
{
    crate::fixed::lemma_div_trunc_value(0, 65536, 0, 0);
    crate::fixed::lemma_div_trunc_value(4294836224, 65536, 65534, 0);
    crate::fixed::lemma_div_trunc_value(4294967296, 65536, 65536, 0);
    crate::fixed::lemma_div_trunc_value(8589934592, 65536, 131072, 0);
    crate::fixed::lemma_div_trunc_value(4259840, 65536, 65, 0);
}

/// The six view planes of the fresh transform, as literals.
#[verifier::rlimit(100)]
proof fn lemma_fresh_plane_values()
    ensures
        ({
            let m = Mat4 {
                c0: Vec4 { x: 65534, y: 0, z: 0, w: 0 },
                c1: Vec4 { x: 0, y: -65534i64, z: 0, w: 0 },
                c2: Vec4 { x: 0, y: 0, z: 65536, w: 65536 },
                c3: Vec4 { x: 0, y: 0, z: 131007, w: 131072 },
            };
            &&& spec_view_plane(m, 0) == (Vec4 { x: 46340, y: 0, z: 46341, w: 92683 })
            &&& spec_view_plane(m, 1) == (Vec4 { x: -46340i64, y: 0, z: 46341, w: 92683 })
            &&& spec_view_plane(m, 2) == (Vec4 { x: 0, y: -46340i64, z: 46341, w: 92683 })
            &&& spec_view_plane(m, 3) == (Vec4 { x: 0, y: 46340, z: 46341, w: 92683 })
            &&& spec_view_plane(m, 4) == (Vec4 { x: 0, y: 0, z: FX_ONE, w: 131039 })
            &&& spec_view_plane(m, 5) == (Vec4 { x: 0, y: 0, z: 0, w: 65 })
        }),
{
    reveal(spec_view_plane);
    crate::fixed::lemma_div_trunc_value(0, 65536, 0, 0);
    crate::fixed::lemma_div_trunc_value(0, 92680, 0, 0);
    crate::fixed::lemma_div_trunc_value(0, 131072, 0, 0);
    crate::fixed::lemma_div_trunc_value(4294705156, 65536, 65532, 4);
    crate::fixed::lemma_div_trunc_value(4294967296, 65536, 65536, 0);
    crate::fixed::lemma_div_trunc_value(4294836224, 92680, 46340, 45024);
    crate::fixed::lemma_div_trunc_value(4294967296, 92680, 46341, 83416);
    crate::fixed::lemma_div_trunc_value(8589934592, 92680, 92683, 74152);
    crate::fixed::lemma_div_trunc_value(8589934592, 131072, 65536, 0);
    crate::fixed::lemma_div_trunc_value(17179869184, 65536, 262144, 0);
    crate::fixed::lemma_div_trunc_value(17175609344, 131072, 131039, 65536);
    assert(crate::fixed::is_sqrt_floor(8589672448, 92680));
    crate::fixed::lemma_sqrt_floor_unique(8589672448, 92680);
    assert(crate::fixed::is_sqrt_floor(17179869184, 131072));
    crate::fixed::lemma_sqrt_floor_unique(17179869184, 131072);
    let m = Mat4 {
        c0: Vec4 { x: 65534, y: 0, z: 0, w: 0 },
        c1: Vec4 { x: 0, y: -65534i64, z: 0, w: 0 },
        c2: Vec4 { x: 0, y: 0, z: 65536, w: 65536 },
        c3: Vec4 { x: 0, y: 0, z: 131007, w: 131072 },
    };
    assert(spec_raw_plane(m, 0) == (Vec4 { x: 65534, y: 0, z: 65536, w: 131072 }));
    assert(spec_v3_dot(Vec3 { x: 65534, y: 0, z: 65536 }, Vec3 { x: 65534, y: 0, z: 65536 })
        == 131068);
    assert(spec_v3_length(Vec3 { x: 65534, y: 0, z: 65536 }) == 92680);
    assert(spec_view_plane(m, 0) == (Vec4 { x: 46340, y: 0, z: 46341, w: 92683 }));
    assert(spec_raw_plane(m, 1) == (Vec4 { x: -65534i64, y: 0, z: 65536, w: 131072 }));
    assert(spec_view_plane(m, 1) == (Vec4 { x: -46340i64, y: 0, z: 46341, w: 92683 }));
    assert(spec_raw_plane(m, 2) == (Vec4 { x: 0, y: -65534i64, z: 65536, w: 131072 }));
    assert(spec_view_plane(m, 2) == (Vec4 { x: 0, y: -46340i64, z: 46341, w: 92683 }));
    assert(spec_raw_plane(m, 3) == (Vec4 { x: 0, y: 65534, z: 65536, w: 131072 }));
    assert(spec_view_plane(m, 3) == (Vec4 { x: 0, y: 46340, z: 46341, w: 92683 }));
    assert(spec_raw_plane(m, 4) == (Vec4 { x: 0, y: 0, z: 131072, w: 262079 }));
    assert(spec_v3_length(Vec3 { x: 0, y: 0, z: 131072 }) == 131072);
    assert(spec_view_plane(m, 4) == (Vec4 { x: 0, y: 0, z: FX_ONE, w: 131039 }));
    assert(spec_raw_plane(m, 5) == (Vec4 { x: 0, y: 0, z: 0, w: 65 }));
    assert(spec_v3_length(Vec3 { x: 0, y: 0, z: 0 }) == 0);
    assert(spec_view_plane(m, 5) == (Vec4 { x: 0, y: 0, z: 0, w: 65 }));
}

/// The six view planes of a fresh square camera, evaluated to literals.
/// The far plane's raw normal cancels to zero at this scale, so it stays
/// unnormalized and admits every point; the near plane does the rejecting.
proof fn lemma_fresh_camera_planes(c: Camera)
    requires
        is_fresh_square_camera(c),
    ensures
        c.view_planes[0] == (Vec4 { x: 46340, y: 0, z: 46341, w: 92683 }),
        c.view_planes[1] == (Vec4 { x: -46340i64, y: 0, z: 46341, w: 92683 }),
        c.view_planes[2] == (Vec4 { x: 0, y: -46340i64, z: 46341, w: 92683 }),
        c.view_planes[3] == (Vec4 { x: 0, y: 46340, z: 46341, w: 92683 }),
        c.view_planes[4] == (Vec4 { x: 0, y: 0, z: FX_ONE, w: 131039 }),
        c.view_planes[5] == (Vec4 { x: 0, y: 0, z: 0, w: 65 }),
{
    reveal(spec_camera_transform);
    lemma_fresh_view_matrix();
    lemma_fresh_projection_matrix();
    lemma_fresh_transform_product();
    assert(c.transformation == (Mat4 {
        c0: Vec4 { x: 65534, y: 0, z: 0, w: 0 },
        c1: Vec4 { x: 0, y: -65534i64, z: 0, w: 0 },
        c2: Vec4 { x: 0, y: 0, z: 65536, w: 65536 },
        c3: Vec4 { x: 0, y: 0, z: 131007, w: 131072 },
    }));
    lemma_fresh_plane_values();
}

/// Camera round trip, looking ahead: a fresh square camera sees every
/// point straight along its look direction at a distance strictly between
/// the near and far planes, with no fudge radius.
pub proof fn lemma_fresh_camera_sees_ahead(c: Camera, t: int)
    requires
        is_fresh_square_camera(c),
        (NEAR_PLANE as int) < t,
        t < (FAR_PLANE as int),
    ensures
        spec_can_see(c, Vec3 { x: 0, y: 0, z: (CAMERA_START_Z + t) as i64 }, 0),
{
    lemma_fresh_camera_planes(c);
    let z = CAMERA_START_Z as int + t;
    let p = Vec3 { x: 0, y: 0, z: z as i64 };
    crate::fixed::lemma_div_trunc_value(0, 65536, 0, 0);
    assert(z * 46341 >= -131006 * 46341) by (nonlinear_arith)
        requires
            z >= -131006,
    ;
    assert(z * 46341 <= 65404927 * 46341) by (nonlinear_arith)
        requires
            z <= 65404927,
    ;
    crate::fixed::lemma_div_trunc_lower(z * 46341, 65536, -92683);
    crate::fixed::lemma_div_trunc_upper(z * 46341, 65536, 46248318);
    crate::fixed::lemma_fx_mul_one(z);
    assert(spec_plane_admits(c.view_planes[0], p, 0));
    assert(spec_plane_admits(c.view_planes[1], p, 0));
    assert(spec_plane_admits(c.view_planes[2], p, 0));
    assert(spec_plane_admits(c.view_planes[3], p, 0));
    assert(spec_plane_admits(c.view_planes[4], p, 0));
    assert(spec_plane_admits(c.view_planes[5], p, 0));
}

/// Camera round trip, looking back: a fresh square camera cannot see any
/// point straight behind it, out to the far distance; the near plane
/// rejects it.
pub proof fn lemma_fresh_camera_misses_behind(c: Camera, t: int)
    requires
        is_fresh_square_camera(c),
        0 < t <= (FAR_PLANE as int),
    ensures
        !spec_can_see(c, Vec3 { x: 0, y: 0, z: (CAMERA_START_Z - t) as i64 }, 0),
{
    lemma_fresh_camera_planes(c);
    let z = CAMERA_START_Z as int - t;
    let p = Vec3 { x: 0, y: 0, z: z as i64 };
    crate::fixed::lemma_div_trunc_value(0, 65536, 0, 0);
    crate::fixed::lemma_fx_mul_one(z);
    assert(!spec_plane_admits(c.view_planes[4], p, 0));
}

/// Whether a point is within `fudge` of the visible side of one plane.
fn plane_admits(plane: &Vec4, point: Vec3, fudge: i64) -> (r: bool)
    ensures
        r == spec_plane_admits(*plane, point, fudge as int),
{
    let normal = Vec3 { x: plane.x, y: plane.y, z: plane.z };
    fx_add(fx_add(point.dot(normal), plane.w), fudge) >= 0
}

/// Scale a plane so that its normal has unit length; a zero-length normal
/// leaves the plane unchanged.
fn normalize_plane(p: Vec4) -> (r: Vec4)
    ensures
        r == spec_normalize_plane(p),
{
    let normal = Vec3 { x: p.x, y: p.y, z: p.z };
    let len: i64 = normal.length();
    if len == 0 {
        p
    } else {
        Vec4 {
            x: fx_div(p.x, len),
            y: fx_div(p.y, len),
            z: fx_div(p.z, len),
            w: fx_div(p.w, len),
        }
    }
}

} // verus!
