//! The third-person camera rig.
//!
//! The camera derives its pose, every tick, from the tracked body's pose and
//! a player-controlled orbit angle (the pivot): a fixed offset behind and
//! above the tracked point is rotated by the pivot and added to the tracked
//! translation, and the camera looks back down at a fixed pitch.  The rig
//! also unprojects pointer coordinates into world-space picking rays, the
//! exact inverse of the perspective projection it describes.

use vstd::prelude::*;

use crate::fx::{div_signed, div_trunc, fx_mul_spec, FX_ONE};
use crate::sqrt::{is_sqrt, isqrt, sqrt_spec};
use crate::trig::{cos_fx, cos_fx_spec, norm_angle, norm_angle_spec, sin_fx, sin_fx_spec,
    FULL_TURN};
use crate::vec3::{coords_within, iabs, lemma_fx_mul_unit, Vec3};

verus! {

/// The camera's fixed downward pitch: an eighth of a turn.
pub const PITCH_DOWN: i64 = -51472;

/// Height of the orbit offset above the tracked point: two world units.
pub const CAM_OFFSET_Y: i64 = 131072;

/// Distance of the orbit offset behind the tracked point: two world units.
pub const CAM_OFFSET_Z: i64 = 131072;

/// Orbit yaw accumulated per pixel of horizontal drag, in fixed-point
/// radians: one hundredth of a radian.
pub const DRAG_SENSITIVITY: i64 = 655;

/// Cotangent of half the vertical field of view; exactly one for the rig's
/// ninety-degree field of view.
pub const FOCAL: i64 = 65536;

/// Distance from the eye to the near plane: one hundredth of a world unit.
pub const NEAR_PLANE: i64 = 655;

/// Largest tracked-pose coordinate magnitude the rig accepts.
pub const POSE_BOUND: i64 = 0x1000_0000_0000;

/// Largest camera-translation coordinate magnitude the rig produces.
pub const CAM_POS_BOUND: i64 = POSE_BOUND + 0x40000;

/// Largest pointer drag delta the rig accepts, in pixels.
pub const DRAG_DELTA_BOUND: i64 = 0x20_0000;

/// Largest viewport dimension the rig accepts, in pixels.
pub const VIEW_BOUND: i64 = 8192;

/// A rigid pose: a translation together with a rotation given as yaw about
/// the world-up axis composed with pitch about the rotated right axis.
#[derive(Clone, Copy, PartialEq, Eq, Structural, Debug)]
pub struct Pose {
    pub translation: Vec3,
    pub yaw: i64,
    pub pitch: i64,
}

/// The camera rig: the derived camera pose and the orbit pivot angle.
#[derive(Clone, Copy, PartialEq, Eq, Structural, Debug)]
pub struct CameraState {
    /// The camera pose used for rendering; derived, never authored directly
    /// after initialization.
    pub position: Pose,
    /// The player-controlled orbit yaw, fixed-point radians in
    /// `[0, FULL_TURN)`.
    pub pivot: i64,
}

/// Rotation of `(x, y, z)` about the right axis by the angle whose cosine
/// and sine are `c` and `s`.
pub open spec fn rot_x_spec(c: int, s: int, x: int, y: int, z: int) -> (int, int, int) {
    (x, fx_mul_spec(c, y) - fx_mul_spec(s, z), fx_mul_spec(s, y) + fx_mul_spec(c, z))
}

/// Rotation of `(x, y, z)` about the world-up axis by the angle whose cosine
/// and sine are `c` and `s`.
pub open spec fn rot_y_spec(c: int, s: int, x: int, y: int, z: int) -> (int, int, int) {
    (fx_mul_spec(c, x) + fx_mul_spec(s, z), y, fx_mul_spec(c, z) - fx_mul_spec(s, x))
}

/// The camera-space ray direction through the pixel `(sx, sy)` of a
/// `w` by `h` viewport: the screen point is mapped to a normalized device
/// coordinate (vertical axis flipped), then out through the inverse
/// projection.  The scale of the result is arbitrary.
pub open spec fn ray_dir_cam(sx: int, sy: int, w: int, h: int) -> (int, int, int) {
    ((2 * sx - w) * FX_ONE, (h - 2 * sy) * FX_ONE, -FOCAL * h)
}

/// `(x, y, z)` scaled to fixed-point unit length, rounding toward zero.
pub open spec fn normalize_spec(x: int, y: int, z: int) -> (int, int, int) {
    let len = sqrt_spec(x * x + y * y + z * z);
    (
        div_trunc(x * FX_ONE, len),
        div_trunc(y * FX_ONE, len),
        div_trunc(z * FX_ONE, len),
    )
}

/// The world-space ray direction of the pixel `(sx, sy)`: the camera-space
/// direction, normalized, then rotated by the camera's pitch and yaw.
pub open spec fn unproject_dir_spec(yaw: int, pitch: int, sx: int, sy: int, w: int, h: int)
    -> (int, int, int) {
    let d = ray_dir_cam(sx, sy, w, h);
    let n = normalize_spec(d.0, d.1, d.2);
    let p = rot_x_spec(cos_fx_spec(pitch), sin_fx_spec(pitch), n.0, n.1, n.2);
    rot_y_spec(cos_fx_spec(yaw), sin_fx_spec(yaw), p.0, p.1, p.2)
}

/// Numerator of the exact screen x-coordinate of the camera-space point
/// `(x, _, z)` on a `w` by `h` viewport, over the denominator
/// [`project_den`].
pub open spec fn project_num_x(x: int, z: int, w: int, h: int) -> int {
    FOCAL * x * h + w * FX_ONE * (-z)
}

/// Numerator of the exact screen y-coordinate of the camera-space point
/// `(_, y, z)`, over the denominator [`project_den`].
pub open spec fn project_num_y(y: int, z: int, h: int) -> int {
    h * FX_ONE * (-z) - FOCAL * y * h
}

/// Common denominator of the exact screen coordinates of a camera-space
/// point with depth `z`.
pub open spec fn project_den(z: int) -> int {
    2 * FX_ONE * (-z)
}

/// [`ray_dir_cam`] extended to a rational screen point `(sxn/den, syn/den)`,
/// scaled through by `den` so that it stays integral.
pub open spec fn ray_dir_scaled(sxn: int, syn: int, den: int, w: int, h: int)
    -> (int, int, int) {
    ((2 * sxn - w * den) * FX_ONE, (h * den - 2 * syn) * FX_ONE, -FOCAL * h * den)
}

/// On integer screen coordinates, the scaled ray direction with denominator
/// one is the plain one.
pub proof fn lemma_ray_dir_scaled_unit_den(sx: int, sy: int, w: int, h: int)
    ensures
        ray_dir_scaled(sx, sy, 1, w, h) == ray_dir_cam(sx, sy, w, h),
{
}

/// Unprojection inverts projection: for any camera-space point strictly in
/// front of the eye, projecting it to its exact (rational) screen
/// coordinates and casting the ray back out through them yields a direction
/// that is a positive multiple of the point's own direction from the eye.
/// The point therefore lies on the returned ray exactly; only the final
/// fixed-point rounding of the executable pipeline moves the ray, and by
/// less than one unit in the last place of each coordinate.
pub proof fn lemma_unproject_project_round_trip(x: int, y: int, z: int, w: int, h: int)
    requires
        z < 0,
        w >= 1,
        h >= 1,
    ensures
        ({
            let k = 2 * FOCAL * h * FX_ONE;
            let d = ray_dir_scaled(
                project_num_x(x, z, w, h),
                project_num_y(y, z, h),
                project_den(z),
                w,
                h,
            );
            k > 0 && d.0 == k * x && d.1 == k * y && d.2 == k * z
        }),
{
    let k = 2 * FOCAL * h * FX_ONE;
    assert(k > 0) by (nonlinear_arith)
        requires
            h >= 1,
            k == 2 * FOCAL * h * FX_ONE,
    ;
    let sxn = project_num_x(x, z, w, h);
    let syn = project_num_y(y, z, h);
    let den = project_den(z);
    assert((2 * sxn - w * den) * FX_ONE == k * x) by (nonlinear_arith)
        requires
            sxn == FOCAL * x * h + w * FX_ONE * (-z),
            den == 2 * FX_ONE * (-z),
            k == 2 * FOCAL * h * FX_ONE,
    ;
    assert((h * den - 2 * syn) * FX_ONE == k * y) by (nonlinear_arith)
        requires
            syn == h * FX_ONE * (-z) - FOCAL * y * h,
            den == 2 * FX_ONE * (-z),
            k == 2 * FOCAL * h * FX_ONE,
    ;
    assert(-FOCAL * h * den == k * z) by (nonlinear_arith)
        requires
            den == 2 * FX_ONE * (-z),
            k == 2 * FOCAL * h * FX_ONE,
    ;
}

/// `(x, y, z)` scaled to fixed-point unit length, rounding toward zero.
fn normalize(v: &Vec3) -> (r: Vec3)
    requires
        coords_within(*v, 0x4000_0000),
        !(v.x == 0 && v.y == 0 && v.z == 0),
    ensures
        ({
            let n = normalize_spec(v.x as int, v.y as int, v.z as int);
            r.x == n.0 && r.y == n.1 && r.z == n.2
        }),
        coords_within(r, FX_ONE as int),
{
    proof {
        assert(v.x * v.x + v.y * v.y + v.z * v.z >= 1
            && 0 <= v.x * v.x <= 0x1000_0000_0000_0000
            && 0 <= v.y * v.y <= 0x1000_0000_0000_0000
            && 0 <= v.z * v.z <= 0x1000_0000_0000_0000) by (nonlinear_arith)
            requires
                coords_within(*v, 0x4000_0000),
                !(v.x == 0 && v.y == 0 && v.z == 0),
        ;
    }
    let sq: i64 = v.x * v.x + v.y * v.y + v.z * v.z;
    let len_u = isqrt(sq as u64);
    proof {
        assert(len_u < 0x1_0000_0000) by (nonlinear_arith)
            requires
                len_u * len_u <= sq as u64,
                sq as u64 <= 0x3000_0000_0000_0000u64,
        ;
    }
    let len: i64 = len_u as i64;
    proof {
        let s = sq as int;
        let l = len as int;
        assert(is_sqrt(s, l));
        assert(l >= 1) by (nonlinear_arith)
            requires
                l >= 0,
                (l + 1) * (l + 1) > s,
                s >= 1,
        ;
        lemma_unit_quotient(v.x as int, l, s);
        lemma_unit_quotient(v.y as int, l, s);
        lemma_unit_quotient(v.z as int, l, s);
    }
    Vec3 {
        x: div_signed(v.x * FX_ONE, len),
        y: div_signed(v.y * FX_ONE, len),
        z: div_signed(v.z * FX_ONE, len),
    }
}

/// A coordinate of a vector of squared length `s` divides out to at most one
/// fixed-point unit against the vector's length.
proof fn lemma_unit_quotient(a: int, l: int, s: int)
    requires
        l >= 1,
        is_sqrt(s, l),
        a * a <= s,
    ensures
        -FX_ONE <= div_trunc(a * FX_ONE, l) <= FX_ONE,
{
    let fx = FX_ONE as int;
    assert(-(l * fx) <= a * fx <= l * fx) by (nonlinear_arith)
        requires
            a * a <= s,
            (l + 1) * (l + 1) > s,
            l >= 1,
            fx > 0,
    ;
    vstd::arithmetic::div_mod::lemma_div_multiples_vanish(fx, l);
    if a >= 0 {
        vstd::arithmetic::div_mod::lemma_div_is_ordered(a * fx, l * fx, l);
        vstd::arithmetic::div_mod::lemma_div_pos_is_pos(a * fx, l);
    } else {
        vstd::arithmetic::div_mod::lemma_div_is_ordered(-(a * fx), l * fx, l);
        vstd::arithmetic::div_mod::lemma_div_pos_is_pos(-(a * fx), l);
    }
}

impl CameraState {
    /// The rig after deriving the camera pose from the tracked pose `target`:
    /// the fixed offset behind and above, rotated by the pivot, is added to
    /// the tracked translation; the camera takes the pivot's yaw and the
    /// fixed downward pitch; the pivot itself is untouched.  Without a
    /// tracked pose nothing at all changes.
    pub open spec fn updated_spec(self, target: Option<Pose>) -> CameraState {
        match target {
            None => self,
            Some(t) => {
                let s = sin_fx_spec(self.pivot as int);
                let c = cos_fx_spec(self.pivot as int);
                CameraState {
                    position: Pose {
                        translation: Vec3 {
                            x: (t.translation.x + fx_mul_spec(s, CAM_OFFSET_Z as int)) as i64,
                            y: (t.translation.y + CAM_OFFSET_Y) as i64,
                            z: (t.translation.z + fx_mul_spec(c, CAM_OFFSET_Z as int)) as i64,
                        },
                        yaw: self.pivot,
                        pitch: PITCH_DOWN,
                    },
                    pivot: self.pivot,
                }
            },
        }
    }

    /// With the identity pivot the orbit offset is not rotated at all: the
    /// derived camera sits exactly two units above and two units behind the
    /// tracked translation, yawed not at all, pitched down by the fixed
    /// pitch.
    pub proof fn lemma_update_identity_pivot(self, t: Pose)
        requires
            self.pivot == 0,
        ensures
            ({
                let u = self.updated_spec(Some(t));
                &&& u.position.translation.x == (t.translation.x + 0) as i64
                &&& u.position.translation.y == (t.translation.y + CAM_OFFSET_Y) as i64
                &&& u.position.translation.z == (t.translation.z + CAM_OFFSET_Z) as i64
                &&& u.position.yaw == 0
                &&& u.position.pitch == PITCH_DOWN
                &&& u.pivot == 0
            }),
    {
        crate::trig::lemma_sin_cos_zero();
        crate::fx::lemma_fx_mul_zero(CAM_OFFSET_Z as int);
        crate::fx::lemma_fx_mul_one(CAM_OFFSET_Z as int);
    }

    /// The rig's data is in range: the pivot is a normalized angle, the
    /// derived pose's angles are normalized or the fixed pitch, and the
    /// translation is bounded.
    pub open spec fn wf(self) -> bool {
        &&& 0 <= self.pivot < FULL_TURN
        &&& -FULL_TURN <= self.position.yaw <= FULL_TURN
        &&& -FULL_TURN <= self.position.pitch <= FULL_TURN
        &&& coords_within(self.position.translation, CAM_POS_BOUND as int)
    }

    /// The initial rig: camera at the origin looking down at the fixed
    /// pitch, identity pivot.
    pub open spec fn new_spec() -> CameraState {
        CameraState {
            position: Pose {
                translation: Vec3 { x: 0, y: 0, z: 0 },
                yaw: 0,
                pitch: PITCH_DOWN,
            },
            pivot: 0,
        }
    }

    /// The initial rig: camera at the origin looking down at the fixed
    /// pitch, identity pivot.
    pub fn new() -> (r: CameraState)
        ensures
            r == Self::new_spec(),
            r.wf(),
    {
        CameraState {
            position: Pose {
                translation: Vec3 { x: 0, y: 0, z: 0 },
                yaw: 0,
                pitch: PITCH_DOWN,
            },
            pivot: 0,
        }
    }

    /// Derive the camera pose from the tracked body's pose: the fixed offset
    /// behind and above, rotated by the pivot, is added to the tracked
    /// translation, and the camera takes the pivot's yaw with the fixed
    /// downward pitch.  When no pose is available the camera is left exactly
    /// as it was.
    pub fn update(&mut self, target: Option<Pose>)
        requires
            old(self).wf(),
            target matches Some(t) ==> coords_within(t.translation, POSE_BOUND as int),
        ensures
            final(self).wf(),
            *final(self) == old(self).updated_spec(target),
            final(self).pivot == old(self).pivot,
            target is None ==> *final(self) == *old(self),
    {
        match target {
            None => (),
            Some(t) => {
                let c = cos_fx(self.pivot);
                let s = sin_fx(self.pivot);
                let offset = Vec3 { x: 0, y: CAM_OFFSET_Y, z: CAM_OFFSET_Z };
                let eye = offset.rotate_y(c, s);
                proof {
                    lemma_fx_mul_unit(c as int, 0);
                    lemma_fx_mul_unit(s as int, CAM_OFFSET_Z as int);
                    lemma_fx_mul_unit(c as int, CAM_OFFSET_Z as int);
                }
                let translation = t.translation.add(&eye);
                self.position = Pose { translation, yaw: self.pivot, pitch: PITCH_DOWN };
            },
        }
    }

    /// Rotate the pivot by an additional yaw of `dx` pixels times the drag
    /// sensitivity, composed incrementally onto the existing pivot and
    /// normalized back into one turn.
    pub fn apply_drag(&mut self, dx: i64)
        requires
            old(self).wf(),
            -DRAG_DELTA_BOUND <= dx <= DRAG_DELTA_BOUND,
        ensures
            final(self).wf(),
            final(self).position == old(self).position,
            final(self).pivot == norm_angle_spec(
                old(self).pivot + dx * DRAG_SENSITIVITY,
            ),
    {
        self.pivot = norm_angle(self.pivot + dx * DRAG_SENSITIVITY);
    }

    /// Unproject the pixel `(sx, sy)` of a `w` by `h` viewport into a
    /// world-space picking ray.  The returned direction is the camera-space
    /// ray direction through the pixel, normalized to fixed-point unit
    /// length and rotated by the camera's pitch and yaw; the returned origin
    /// lies on the ray at the near distance in front of the eye.
    pub fn unproject(&self, sx: i64, sy: i64, w: i64, h: i64) -> (r: (Vec3, Vec3))
        requires
            self.wf(),
            0 < w <= VIEW_BOUND,
            0 < h <= VIEW_BOUND,
            0 <= sx <= w,
            0 <= sy <= h,
        ensures
            ({
                let d = unproject_dir_spec(
                    self.position.yaw as int,
                    self.position.pitch as int,
                    sx as int,
                    sy as int,
                    w as int,
                    h as int,
                );
                r.1.x == d.0 && r.1.y == d.1 && r.1.z == d.2
            }),
            coords_within(r.1, 3 * FX_ONE as int),
            r.0.x == self.position.translation.x + fx_mul_spec(NEAR_PLANE as int, r.1.x as int),
            r.0.y == self.position.translation.y + fx_mul_spec(NEAR_PLANE as int, r.1.y as int),
            r.0.z == self.position.translation.z + fx_mul_spec(NEAR_PLANE as int, r.1.z as int),
    {
        let dc = Vec3 { x: (2 * sx - w) * FX_ONE, y: (h - 2 * sy) * FX_ONE, z: -(FOCAL * h) };
        let n = normalize(&dc);
        let cp = cos_fx(self.position.pitch);
        let sp = sin_fx(self.position.pitch);
        let cy = cos_fx(self.position.yaw);
        let syaw = sin_fx(self.position.yaw);
        let p = n.rotate_x(cp, sp);
        let dir = p.rotate_y(cy, syaw);
        proof {
            lemma_fx_mul_unit(NEAR_PLANE as int, dir.x as int);
            lemma_fx_mul_unit(NEAR_PLANE as int, dir.y as int);
            lemma_fx_mul_unit(NEAR_PLANE as int, dir.z as int);
        }
        let origin = self.position.translation.add(&dir.scale(NEAR_PLANE));
        (origin, dir)
    }
}

} // verus!
