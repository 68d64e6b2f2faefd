//! Spatial state of an entity and the fixed-point matrix algebra every
//! system shares.
//!
//! A `BodyLocation` is a position plus a yaw/pitch orientation whose angles
//! are always canonical. Rotation matrices compose pitch about the local X
//! axis and then yaw about the world Y axis — `Rx(pitch) * Ry(yaw)` — and
//! `model_to_world_matrix` is a view-style transform (rotation followed by
//! translation by the negated position); both conventions are relied on by
//! the camera and the movement system and must not change.

use vstd::prelude::*;

use crate::angle::{canonical, norm_angle, spec_norm_angle};
use vstd::arithmetic::div_mod::lemma_fundamental_div_mod;

use crate::fixed::{
    cl64, clamp128, floor_sqrt, fp_mul, lemma_floor_sqrt, lemma_tdiv_bound,
    lemma_tdiv_scale_exact, mul_i128, scaled_unit, spec_add3, spec_neg3, spec_norm2,
    spec_scaled_unit, tdiv, tdiv128, Vec3, FP_ONE,
};
use crate::trig::{cos_fp, lemma_trig_exact_at_axes, sin_fp, spec_bha, spec_cos, spec_sin};

verus! {

/// Saturating fixed-point product of two scalars.
pub open spec fn fpm(a: int, b: int) -> int {
    cl64(tdiv(a * b, 1000))
}

/// Saturating fixed-point dot product of a matrix row and a column vector.
pub open spec fn spec_dot4(
    a0: int, a1: int, a2: int, a3: int,
    b0: int, b1: int, b2: int, b3: int,
) -> int {
    cl64(fpm(a0, b0) + fpm(a1, b1) + fpm(a2, b2) + fpm(a3, b3))
}

/// Fixed-point product of two unit-scale trigonometric values; the result
/// stays within the unit scale.
fn trig_mul(a: i64, b: i64) -> (r: i64)
    requires
        -1000 <= a <= 1000,
        -1000 <= b <= 1000,
    ensures
        r as int == fpm(a as int, b as int),
        -1000 <= r <= 1000,
{
    proof {
        assert(-1000000 <= (a as int) * (b as int) <= 1000000) by (nonlinear_arith)
            requires
                -1000 <= a as int <= 1000,
                -1000 <= b as int <= 1000,
        ;
        lemma_tdiv_bound((a as int) * (b as int), 1000, 1000);
    }
    fp_mul(a, b)
}

/// Fixed-point dot product of a row and a column.
fn dot4(
    a0: i64, a1: i64, a2: i64, a3: i64,
    b0: i64, b1: i64, b2: i64, b3: i64,
) -> (r: i64)
    ensures
        r as int == spec_dot4(
            a0 as int, a1 as int, a2 as int, a3 as int,
            b0 as int, b1 as int, b2 as int, b3 as int,
        ),
{
    let p0: i64 = fp_mul(a0, b0);
    let p1: i64 = fp_mul(a1, b1);
    let p2: i64 = fp_mul(a2, b2);
    let p3: i64 = fp_mul(a3, b3);
    let s: i128 = p0 as i128 + p1 as i128 + p2 as i128 + p3 as i128;
    crate::fixed::clamp128(s)
}

/// A 4x4 fixed-point matrix, row major: `mRC` is row `R`, column `C`.
#[derive(Clone, Copy, Debug, PartialEq, Eq, Structural)]
pub struct Mat4 {
    pub m00: i64, pub m01: i64, pub m02: i64, pub m03: i64,
    pub m10: i64, pub m11: i64, pub m12: i64, pub m13: i64,
    pub m20: i64, pub m21: i64, pub m22: i64, pub m23: i64,
    pub m30: i64, pub m31: i64, pub m32: i64, pub m33: i64,
}

/// The fixed-point identity matrix.
pub open spec fn spec_identity() -> Mat4 {
    Mat4 {
        m00: 1000, m01: 0, m02: 0, m03: 0,
        m10: 0, m11: 1000, m12: 0, m13: 0,
        m20: 0, m21: 0, m22: 1000, m23: 0,
        m30: 0, m31: 0, m32: 0, m33: 1000,
    }
}

/// The rotation `Rx(pitch) * Ry(yaw)` in fixed point.
pub open spec fn spec_rotation_matrix(yaw: int, pitch: int) -> Mat4 {
    let sy = spec_sin(yaw);
    let cy = spec_cos(yaw);
    let sp = spec_sin(pitch);
    let cp = spec_cos(pitch);
    Mat4 {
        m00: cy as i64, m01: 0, m02: sy as i64, m03: 0,
        m10: fpm(sp, sy) as i64, m11: cp as i64, m12: (-fpm(sp, cy)) as i64, m13: 0,
        m20: (-fpm(cp, sy)) as i64, m21: sp as i64, m22: fpm(cp, cy) as i64, m23: 0,
        m30: 0, m31: 0, m32: 0, m33: 1000,
    }
}

/// The translation by `t` in fixed point.
pub open spec fn spec_translation(t: Vec3) -> Mat4 {
    Mat4 {
        m00: 1000, m01: 0, m02: 0, m03: t.x,
        m10: 0, m11: 1000, m12: 0, m13: t.y,
        m20: 0, m21: 0, m22: 1000, m23: t.z,
        m30: 0, m31: 0, m32: 0, m33: 1000,
    }
}

/// Matrix transposition.
pub open spec fn spec_transpose(m: Mat4) -> Mat4 {
    Mat4 {
        m00: m.m00, m01: m.m10, m02: m.m20, m03: m.m30,
        m10: m.m01, m11: m.m11, m12: m.m21, m13: m.m31,
        m20: m.m02, m21: m.m12, m22: m.m22, m23: m.m32,
        m30: m.m03, m31: m.m13, m32: m.m23, m33: m.m33,
    }
}

/// Fixed-point matrix product.
pub open spec fn spec_mat_mul(a: Mat4, b: Mat4) -> Mat4 {
    Mat4 {
        m00: spec_dot4(a.m00 as int, a.m01 as int, a.m02 as int, a.m03 as int,
            b.m00 as int, b.m10 as int, b.m20 as int, b.m30 as int) as i64,
        m01: spec_dot4(a.m00 as int, a.m01 as int, a.m02 as int, a.m03 as int,
            b.m01 as int, b.m11 as int, b.m21 as int, b.m31 as int) as i64,
        m02: spec_dot4(a.m00 as int, a.m01 as int, a.m02 as int, a.m03 as int,
            b.m02 as int, b.m12 as int, b.m22 as int, b.m32 as int) as i64,
        m03: spec_dot4(a.m00 as int, a.m01 as int, a.m02 as int, a.m03 as int,
            b.m03 as int, b.m13 as int, b.m23 as int, b.m33 as int) as i64,
        m10: spec_dot4(a.m10 as int, a.m11 as int, a.m12 as int, a.m13 as int,
            b.m00 as int, b.m10 as int, b.m20 as int, b.m30 as int) as i64,
        m11: spec_dot4(a.m10 as int, a.m11 as int, a.m12 as int, a.m13 as int,
            b.m01 as int, b.m11 as int, b.m21 as int, b.m31 as int) as i64,
        m12: spec_dot4(a.m10 as int, a.m11 as int, a.m12 as int, a.m13 as int,
            b.m02 as int, b.m12 as int, b.m22 as int, b.m32 as int) as i64,
        m13: spec_dot4(a.m10 as int, a.m11 as int, a.m12 as int, a.m13 as int,
            b.m03 as int, b.m13 as int, b.m23 as int, b.m33 as int) as i64,
        m20: spec_dot4(a.m20 as int, a.m21 as int, a.m22 as int, a.m23 as int,
            b.m00 as int, b.m10 as int, b.m20 as int, b.m30 as int) as i64,
        m21: spec_dot4(a.m20 as int, a.m21 as int, a.m22 as int, a.m23 as int,
            b.m01 as int, b.m11 as int, b.m21 as int, b.m31 as int) as i64,
        m22: spec_dot4(a.m20 as int, a.m21 as int, a.m22 as int, a.m23 as int,
            b.m02 as int, b.m12 as int, b.m22 as int, b.m32 as int) as i64,
        m23: spec_dot4(a.m20 as int, a.m21 as int, a.m22 as int, a.m23 as int,
            b.m03 as int, b.m13 as int, b.m23 as int, b.m33 as int) as i64,
        m30: spec_dot4(a.m30 as int, a.m31 as int, a.m32 as int, a.m33 as int,
            b.m00 as int, b.m10 as int, b.m20 as int, b.m30 as int) as i64,
        m31: spec_dot4(a.m30 as int, a.m31 as int, a.m32 as int, a.m33 as int,
            b.m01 as int, b.m11 as int, b.m21 as int, b.m31 as int) as i64,
        m32: spec_dot4(a.m30 as int, a.m31 as int, a.m32 as int, a.m33 as int,
            b.m02 as int, b.m12 as int, b.m22 as int, b.m32 as int) as i64,
        m33: spec_dot4(a.m30 as int, a.m31 as int, a.m32 as int, a.m33 as int,
            b.m03 as int, b.m13 as int, b.m23 as int, b.m33 as int) as i64,
    }
}

/// Apply a matrix to a point (homogeneous coordinate one), keeping the
/// spatial components.
pub open spec fn spec_apply_point(m: Mat4, v: Vec3) -> Vec3 {
    Vec3 {
        x: spec_dot4(m.m00 as int, m.m01 as int, m.m02 as int, m.m03 as int,
            v.x as int, v.y as int, v.z as int, 1000) as i64,
        y: spec_dot4(m.m10 as int, m.m11 as int, m.m12 as int, m.m13 as int,
            v.x as int, v.y as int, v.z as int, 1000) as i64,
        z: spec_dot4(m.m20 as int, m.m21 as int, m.m22 as int, m.m23 as int,
            v.x as int, v.y as int, v.z as int, 1000) as i64,
    }
}

impl Mat4 {
    /// The fixed-point identity matrix.
    pub fn identity() -> (r: Mat4)
        ensures
            r == spec_identity(),
    {
        Mat4 {
            m00: 1000, m01: 0, m02: 0, m03: 0,
            m10: 0, m11: 1000, m12: 0, m13: 0,
            m20: 0, m21: 0, m22: 1000, m23: 0,
            m30: 0, m31: 0, m32: 0, m33: 1000,
        }
    }

    /// The translation by `t`.
    pub fn translation(t: Vec3) -> (r: Mat4)
        ensures
            r == spec_translation(t),
    {
        Mat4 {
            m00: 1000, m01: 0, m02: 0, m03: t.x,
            m10: 0, m11: 1000, m12: 0, m13: t.y,
            m20: 0, m21: 0, m22: 1000, m23: t.z,
            m30: 0, m31: 0, m32: 0, m33: 1000,
        }
    }

    /// The transpose.
    pub fn transpose(&self) -> (r: Mat4)
        ensures
            r == spec_transpose(*self),
    {
        Mat4 {
            m00: self.m00, m01: self.m10, m02: self.m20, m03: self.m30,
            m10: self.m01, m11: self.m11, m12: self.m21, m13: self.m31,
            m20: self.m02, m21: self.m12, m22: self.m22, m23: self.m32,
            m30: self.m03, m31: self.m13, m32: self.m23, m33: self.m33,
        }
    }

    /// Fixed-point matrix product.
    pub fn mat_mul(&self, b: &Mat4) -> (r: Mat4)
        ensures
            r == spec_mat_mul(*self, *b),
    {
        Mat4 {
            m00: dot4(self.m00, self.m01, self.m02, self.m03, b.m00, b.m10, b.m20, b.m30),
            m01: dot4(self.m00, self.m01, self.m02, self.m03, b.m01, b.m11, b.m21, b.m31),
            m02: dot4(self.m00, self.m01, self.m02, self.m03, b.m02, b.m12, b.m22, b.m32),
            m03: dot4(self.m00, self.m01, self.m02, self.m03, b.m03, b.m13, b.m23, b.m33),
            m10: dot4(self.m10, self.m11, self.m12, self.m13, b.m00, b.m10, b.m20, b.m30),
            m11: dot4(self.m10, self.m11, self.m12, self.m13, b.m01, b.m11, b.m21, b.m31),
            m12: dot4(self.m10, self.m11, self.m12, self.m13, b.m02, b.m12, b.m22, b.m32),
            m13: dot4(self.m10, self.m11, self.m12, self.m13, b.m03, b.m13, b.m23, b.m33),
            m20: dot4(self.m20, self.m21, self.m22, self.m23, b.m00, b.m10, b.m20, b.m30),
            m21: dot4(self.m20, self.m21, self.m22, self.m23, b.m01, b.m11, b.m21, b.m31),
            m22: dot4(self.m20, self.m21, self.m22, self.m23, b.m02, b.m12, b.m22, b.m32),
            m23: dot4(self.m20, self.m21, self.m22, self.m23, b.m03, b.m13, b.m23, b.m33),
            m30: dot4(self.m30, self.m31, self.m32, self.m33, b.m00, b.m10, b.m20, b.m30),
            m31: dot4(self.m30, self.m31, self.m32, self.m33, b.m01, b.m11, b.m21, b.m31),
            m32: dot4(self.m30, self.m31, self.m32, self.m33, b.m02, b.m12, b.m22, b.m32),
            m33: dot4(self.m30, self.m31, self.m32, self.m33, b.m03, b.m13, b.m23, b.m33),
        }
    }

    /// Apply the matrix to a point.
    pub fn apply_point(&self, v: Vec3) -> (r: Vec3)
        ensures
            r == spec_apply_point(*self, v),
    {
        Vec3 {
            x: dot4(self.m00, self.m01, self.m02, self.m03, v.x, v.y, v.z, FP_ONE),
            y: dot4(self.m10, self.m11, self.m12, self.m13, v.x, v.y, v.z, FP_ONE),
            z: dot4(self.m20, self.m21, self.m22, self.m23, v.x, v.y, v.z, FP_ONE),
        }
    }
}

/// Position and orientation of a simulated body.
#[derive(Clone, Copy, Debug, PartialEq, Eq, Structural)]
pub struct BodyLocation {
    pub position: Vec3,
    pub yaw: i64,
    pub pitch: i64,
}

/// Both angles of the location are canonical.
pub open spec fn loc_wf(loc: BodyLocation) -> bool {
    canonical(loc.yaw as int) && canonical(loc.pitch as int)
}

/// The location after a `rotate` call: both deltas added and the sums
/// normalized into the canonical range.
pub open spec fn spec_rotate(loc: BodyLocation, yaw_d: int, pitch_d: int) -> BodyLocation {
    BodyLocation {
        position: loc.position,
        yaw: spec_norm_angle(loc.yaw + yaw_d) as i64,
        pitch: spec_norm_angle(loc.pitch + pitch_d) as i64,
    }
}

/// The location after a `forward` call: the direction is taken from local
/// (camera) space to world space through the inverse (transposed) rotation
/// and added to the position.
pub open spec fn spec_forward(loc: BodyLocation, dir: Vec3) -> BodyLocation {
    BodyLocation {
        position: spec_add3(
            loc.position,
            spec_apply_point(spec_transpose(spec_rotation_matrix(loc.yaw as int, loc.pitch as int)), dir),
        ),
        yaw: loc.yaw,
        pitch: loc.pitch,
    }
}

impl BodyLocation {
    /// The origin, facing down the negative Z axis.
    pub fn zero() -> (r: BodyLocation)
        ensures
            r == (BodyLocation { position: Vec3 { x: 0i64, y: 0i64, z: 0i64 }, yaw: 0i64, pitch: 0i64 }),
            loc_wf(r),
    {
        BodyLocation { position: Vec3 { x: 0, y: 0, z: 0 }, yaw: 0, pitch: 0 }
    }

    /// A location at `pos` with identity orientation.
    pub fn at_pos(pos: Vec3) -> (r: BodyLocation)
        ensures
            r == (BodyLocation { position: pos, yaw: 0i64, pitch: 0i64 }),
            loc_wf(r),
    {
        BodyLocation { position: pos, yaw: 0, pitch: 0 }
    }

    /// The rotation of this orientation: `Rx(pitch) * Ry(yaw)`.
    pub fn rotation_matrix(&self) -> (r: Mat4)
        ensures
            r == spec_rotation_matrix(self.yaw as int, self.pitch as int),
    {
        let sy: i64 = sin_fp(self.yaw);
        let cy: i64 = cos_fp(self.yaw);
        let sp: i64 = sin_fp(self.pitch);
        let cp: i64 = cos_fp(self.pitch);
        let spsy: i64 = trig_mul(sp, sy);
        let spcy: i64 = trig_mul(sp, cy);
        let cpsy: i64 = trig_mul(cp, sy);
        let cpcy: i64 = trig_mul(cp, cy);
        Mat4 {
            m00: cy, m01: 0, m02: sy, m03: 0,
            m10: spsy, m11: cp, m12: -spcy, m13: 0,
            m20: -cpsy, m21: sp, m22: cpcy, m23: 0,
            m30: 0, m31: 0, m32: 0, m33: 1000,
        }
    }

    /// The inverse of the rotation: its transpose, exact because rotation
    /// matrices are orthogonal.
    pub fn inv_rotation_matrix(&self) -> (r: Mat4)
        ensures
            r == spec_transpose(spec_rotation_matrix(self.yaw as int, self.pitch as int)),
    {
        self.rotation_matrix().transpose()
    }

    /// The world-to-local (view) transform of this location: rotation
    /// composed with translation by the negated position. Reused for both
    /// camera view construction and renderable placement, so the sign
    /// convention must stay the same at both call sites.
    pub fn model_to_world_matrix(&self) -> (r: Mat4)
        ensures
            r == spec_mat_mul(
                spec_rotation_matrix(self.yaw as int, self.pitch as int),
                spec_translation(spec_neg3(self.position)),
            ),
    {
        let rot = self.rotation_matrix();
        let tr = Mat4::translation(self.position.neg3());
        rot.mat_mul(&tr)
    }

    /// Add the deltas to yaw and pitch and renormalize both into the
    /// canonical range.
    pub fn rotate(&mut self, yaw_d: i64, pitch_d: i64)
        ensures
            *final(self) == spec_rotate(*old(self), yaw_d as int, pitch_d as int),
            loc_wf(*final(self)),
    {
        self.yaw = norm_angle(self.yaw as i128 + yaw_d as i128);
        self.pitch = norm_angle(self.pitch as i128 + pitch_d as i128);
    }

    /// Displace the position by `d` (component-wise, saturating).
    pub fn translate(&mut self, d: Vec3)
        ensures
            final(self).position == spec_add3(old(self).position, d),
            final(self).yaw == old(self).yaw,
            final(self).pitch == old(self).pitch,
    {
        self.position = self.position.add3(d);
    }


    /// Face `target`: derive the pitch from the vertical component of the
    /// normalized direction toward it and the yaw from its plane
    /// components, both by bisecting the fixed-point trigonometry. The
    /// position is untouched. Not meaningful when `target` equals the
    /// current position.
    pub fn look_at(&mut self, target: Vec3)
        requires
            target != old(self).position,
        ensures
            final(self).position == old(self).position,
            loc_wf(*final(self)),
            asin_brackets(
                final(self).pitch as int,
                spec_look_dir(old(self).position, target).y as int,
            ),
            atan2_brackets(
                final(self).yaw as int,
                spec_look_dir(old(self).position, target).x as int,
                spec_look_dir(old(self).position, target).z as int,
            ),
    {
        let dx: i64 = clamp128(target.x as i128 - self.position.x as i128);
        let dy: i64 = clamp128(target.y as i128 - self.position.y as i128);
        let dz: i64 = clamp128(target.z as i128 - self.position.z as i128);
        let ax: i64 = if dx >= 0 { dx } else { clamp128(-(dx as i128)) };
        let ay: i64 = if dy >= 0 { dy } else { clamp128(-(dy as i128)) };
        let az: i64 = if dz >= 0 { dz } else { clamp128(-(dz as i128)) };
        let m: i64 = if ax >= ay && ax >= az {
            ax
        } else if ay >= az {
            ay
        } else {
            az
        };
        let s: i64 = m / 1000000 + 1;
        let sx: i64 = clamp128(tdiv128(dx as i128, s));
        let sy: i64 = clamp128(tdiv128(dy as i128, s));
        let sz: i64 = clamp128(tdiv128(dz as i128, s));
        proof {
            lemma_fundamental_div_mod(m as int, 1000000);
            lemma_tdiv_bound(dx as int, s as int, 1000000);
            lemma_tdiv_bound(dy as int, s as int, 1000000);
            lemma_tdiv_bound(dz as int, s as int, 1000000);
        }
        let n: Vec3 = scaled_unit(Vec3 { x: sx, y: sy, z: sz }, 1000);
        proof {
            lemma_scaled_unit_bounded(Vec3 { x: sx, y: sy, z: sz }, 1000);
            assert(n == spec_look_dir(old(self).position, target));
        }
        let pitch: i64 = asin_fp(n.y);
        let yaw: i64 = atan2_fp(n.x, n.z);
        self.yaw = yaw;
        self.pitch = pitch;
    }

    /// Move by `dir` expressed in local (camera) space: the direction is
    /// carried to world space through the inverse rotation, then added to
    /// the position.
    pub fn forward(&mut self, dir: Vec3)
        ensures
            *final(self) == spec_forward(*old(self), dir),
    {
        let m = self.inv_rotation_matrix();
        let world_dir = m.apply_point(dir);
        self.translate(world_dir);
    }
}


/// `r` is the bisected arcsine of `v`: the angle whose half-turn sine
/// brackets `v`, mirrored for negative arguments.
pub open spec fn asin_brackets(r: int, v: int) -> bool {
    &&& -90000 <= r <= 90000
    &&& (v >= 0 ==> 0 <= r && spec_bha(r) <= v && (r < 90000 ==> v < spec_bha(r + 1)))
    &&& (v < 0 ==> r <= 0 && spec_bha(-r) <= -v && (-r < 90000 ==> -v < spec_bha(-r + 1)))
}

/// The first-quadrant tangent comparison: the angle `t` lies at or below
/// the direction `(num, den)` when `den * sin(t) <= num * cos(t)`.
pub open spec fn tan_le(t: int, num: int, den: int) -> bool {
    den * spec_sin(t) <= num * spec_cos(t)
}

/// `r` is the bisected plane angle of the direction `(x, z)` — the
/// convention of `atan2(x, z)`: zero along positive Z, a quarter turn at
/// positive X, the half turn split at negative Z.
pub open spec fn atan2_brackets(r: int, x: int, z: int) -> bool {
    &&& (x == 0 && z >= 0 ==> r == 0)
    &&& (x == 0 && z < 0 ==> r == -180000)
    &&& (x > 0 && z == 0 ==> r == 90000)
    &&& (x < 0 && z == 0 ==> r == -90000)
    &&& (x > 0 && z > 0 ==> 0 <= r < 90000 && tan_le(r, x, z) && !tan_le(r + 1, x, z))
    &&& (x < 0 && z > 0 ==> -90000 < r <= 0 && tan_le(-r, -x, z) && !tan_le(-r + 1, -x, z))
    &&& (x > 0 && z < 0 ==> (r == -180000 && tan_le(0, x, -z) && !tan_le(1, x, -z))
        || (90000 < r < 180000 && tan_le(180000 - r, x, -z) && !tan_le(180000 - r + 1, x, -z)))
    &&& (x < 0 && z < 0 ==> -180000 <= r < -90000 && tan_le(r + 180000, -x, -z)
        && !tan_le(r + 180000 + 1, -x, -z))
}

/// Bisect the arcsine of a unit-scale value.
fn asin_fp(v: i64) -> (r: i64)
    requires
        -1000 <= v <= 1000,
    ensures
        asin_brackets(r as int, v as int),
{
    let mag: i64 = if v >= 0 {
        v
    } else {
        -v
    };
    proof {
        crate::trig::lemma_trig_exact_at_axes();
        crate::trig::lemma_bha_bounds(0);
    }
    if mag >= 1000 {
        proof {
            crate::trig::lemma_bha_bounds(90000);
        }
        if v >= 0 {
            return 90000;
        }
        return -90000;
    }
    let mut lo: i64 = 0;
    let mut hi: i64 = 90000;
    proof {
        assert(spec_bha(90000) == 1000) by {
            assert(90000 * (180000 - 90000) == 8100000000) by (nonlinear_arith);
            assert(spec_bha(90000) == (32400000000000int) / (32400000000int));
        }
        assert(spec_bha(0) == 0);
    }
    while lo + 1 < hi
        invariant
            0 <= lo < hi <= 90000,
            0 <= mag < 1000,
            mag == (if v >= 0 { v as int } else { -(v as int) }),
            spec_bha(lo as int) <= mag as int,
            (mag as int) < spec_bha(hi as int),
        decreases hi - lo,
    {
        let mid: i64 = lo + (hi - lo) / 2;
        if bha_at(mid) <= mag {
            lo = mid;
        } else {
            hi = mid;
        }
    }
    if v >= 0 {
        lo
    } else {
        -lo
    }
}

/// Evaluate the half-turn rational sine (shared with the bisections).
fn bha_at(x: i64) -> (r: i64)
    requires
        0 <= x < 180000,
    ensures
        r as int == spec_bha(x as int),
        0 <= r <= 1000,
{
    proof {
        crate::trig::lemma_bha_bounds(x as int);
    }
    let s: i64 = sin_fp(x);
    proof {
        crate::angle::lemma_norm_idempotent(x as int);
    }
    s
}

/// Whether the angle `t` lies at or below the direction `(num, den)` in
/// the first quadrant.
fn tan_le_at(t: i64, num: i64, den: i64) -> (r: bool)
    requires
        0 <= t <= 90000,
        0 <= num,
        0 <= den,
    ensures
        r == tan_le(t as int, num as int, den as int),
{
    let st: i64 = sin_fp(t);
    let ct: i64 = cos_fp(t);
    let lhs: i128 = mul_i128(den, st);
    let rhs: i128 = mul_i128(num, ct);
    lhs <= rhs
}

/// Bisect the first-quadrant angle of a non-negative direction with both
/// components positive.
fn atan_quadrant(num: i64, den: i64) -> (r: i64)
    requires
        0 < num,
        0 < den,
    ensures
        0 <= r < 90000,
        tan_le(r as int, num as int, den as int),
        !tan_le(r as int + 1, num as int, den as int),
{
    proof {
        crate::trig::lemma_trig_exact_at_axes();
        assert(tan_le(0, num as int, den as int)) by (nonlinear_arith)
            requires
                num > 0,
                spec_sin(0) == 0,
                spec_cos(0) == 1000,
        ;
        assert(!tan_le(90000, num as int, den as int)) by (nonlinear_arith)
            requires
                den > 0,
                spec_sin(90000) == 1000,
                spec_cos(90000) == 0,
        ;
    }
    let mut lo: i64 = 0;
    let mut hi: i64 = 90000;
    while lo + 1 < hi
        invariant
            0 <= lo < hi <= 90000,
            0 < num,
            0 < den,
            tan_le(lo as int, num as int, den as int),
            !tan_le(hi as int, num as int, den as int),
        decreases hi - lo,
    {
        let mid: i64 = lo + (hi - lo) / 2;
        if tan_le_at(mid, num, den) {
            lo = mid;
        } else {
            hi = mid;
        }
    }
    lo
}

/// The plane angle of a direction, in the `atan2(x, z)` convention, by
/// quadrant reduction and bisection.
fn atan2_fp(x: i64, z: i64) -> (r: i64)
    requires
        (i64::MIN as int) < x as int,
        (i64::MIN as int) < z as int,
    ensures
        canonical(r as int),
        atan2_brackets(r as int, x as int, z as int),
{
    if x == 0 {
        if z >= 0 {
            return 0;
        }
        return -180000;
    }
    if z == 0 {
        if x > 0 {
            return 90000;
        }
        return -90000;
    }
    let ax: i64 = if x > 0 {
        x
    } else {
        -x
    };
    let az: i64 = if z > 0 {
        z
    } else {
        -z
    };
    let t: i64 = atan_quadrant(ax, az);
    if z > 0 {
        if x > 0 {
            t
        } else {
            -t
        }
    } else {
        if x > 0 {
            if t == 0 {
                -180000
            } else {
                180000 - t
            }
        } else {
            t - 180000
        }
    }
}

/// The direction from `pos` toward `target`, shrunk into the bisection
/// range and rescaled to unit length (times `FP_ONE`).
pub open spec fn spec_look_dir(pos: Vec3, target: Vec3) -> Vec3 {
    let dx = cl64(target.x - pos.x);
    let dy = cl64(target.y - pos.y);
    let dz = cl64(target.z - pos.z);
    let m = vmax3(vabs(dx), vabs(dy), vabs(dz));
    let s = m / 1000000 + 1;
    spec_scaled_unit(
        Vec3 { x: tdiv(dx, s) as i64, y: tdiv(dy, s) as i64, z: tdiv(dz, s) as i64 },
        1000,
    )
}

/// Absolute value.
pub open spec fn vabs(a: int) -> int {
    if a >= 0 {
        a
    } else {
        -a
    }
}

/// Largest of three values.
pub open spec fn vmax3(a: int, b: int, c: int) -> int {
    if a >= b && a >= c {
        a
    } else if b >= c {
        b
    } else {
        c
    }
}

/// With identity orientation (zero yaw and pitch), `forward` moves the
/// position by exactly the requested direction, whenever the sums stay in
/// the machine range.
pub proof fn lemma_forward_identity(loc: BodyLocation, dir: Vec3)
    requires
        loc.yaw == 0,
        loc.pitch == 0,
        i64::MIN as int <= loc.position.x + dir.x <= i64::MAX as int,
        i64::MIN as int <= loc.position.y + dir.y <= i64::MAX as int,
        i64::MIN as int <= loc.position.z + dir.z <= i64::MAX as int,
    ensures
        spec_forward(loc, dir).position == (Vec3 {
            x: (loc.position.x + dir.x) as i64,
            y: (loc.position.y + dir.y) as i64,
            z: (loc.position.z + dir.z) as i64,
        }),
        spec_forward(loc, dir).yaw == loc.yaw,
        spec_forward(loc, dir).pitch == loc.pitch,
{
    lemma_trig_exact_at_axes();
    let rot = spec_rotation_matrix(0, 0);
    assert(fpm(0, 0) == 0);
    assert(fpm(0, 1000) == 0);
    assert(fpm(1000, 1000) == 1000) by {
        assert(tdiv(1000000int, 1000int) == 1000);
    }
    assert(rot == spec_identity());
    let t = spec_transpose(rot);
    assert(t == spec_identity());
    lemma_apply_identity(dir);
}


/// Every component of a rescaled unit vector is bounded by the scale.
pub proof fn lemma_scaled_unit_bounded(v: Vec3, k: i64)
    requires
        -1000000 <= v.x <= 1000000,
        -1000000 <= v.y <= 1000000,
        -1000000 <= v.z <= 1000000,
        0 <= k <= 1000000,
    ensures
        -k <= spec_scaled_unit(v, k).x <= k,
        -k <= spec_scaled_unit(v, k).y <= k,
        -k <= spec_scaled_unit(v, k).z <= k,
        -1000000 <= spec_scaled_unit(v, k).x <= 1000000,
        -1000000 <= spec_scaled_unit(v, k).y <= 1000000,
        -1000000 <= spec_scaled_unit(v, k).z <= 1000000,
{
    let n2 = spec_norm2(v);
    assert(0 <= v.x * v.x && 0 <= v.y * v.y && 0 <= v.z * v.z) by (nonlinear_arith);
    assert(v.x * v.x <= n2 && v.y * v.y <= n2 && v.z * v.z <= n2);
    lemma_floor_sqrt(n2);
    let n = floor_sqrt(n2);
    if n == 0 {
    } else {
        lemma_component_le_sqrt(v.x as int, n2, n);
        lemma_component_le_sqrt(v.y as int, n2, n);
        lemma_component_le_sqrt(v.z as int, n2, n);
        assert(vabs(v.x as int) * k <= n * k && vabs(v.y as int) * k <= n * k
            && vabs(v.z as int) * k <= n * k) by (nonlinear_arith)
            requires
                vabs(v.x as int) <= n,
                vabs(v.y as int) <= n,
                vabs(v.z as int) <= n,
                k >= 0,
        ;
        assert(-(n * k) <= v.x * k <= n * k && -(n * k) <= v.y * k <= n * k
            && -(n * k) <= v.z * k <= n * k) by (nonlinear_arith)
            requires
                vabs(v.x as int) * k <= n * k,
                vabs(v.y as int) * k <= n * k,
                vabs(v.z as int) * k <= n * k,
                k >= 0,
        ;
        assert(n * (k as int) == (k as int) * n) by (nonlinear_arith);
        lemma_tdiv_bound(v.x * k, n, k as int);
        lemma_tdiv_bound(v.y * k, n, k as int);
        lemma_tdiv_bound(v.z * k, n, k as int);
    }
}

/// A component of a vector never exceeds the floor square root of the
/// vector's squared length, in magnitude.
proof fn lemma_component_le_sqrt(c: int, n2: int, n: int)
    requires
        c * c <= n2,
        0 <= n,
        n * n <= n2 < (n + 1) * (n + 1),
    ensures
        vabs(c) <= n,
{
    if vabs(c) > n {
        assert(c * c >= (n + 1) * (n + 1)) by (nonlinear_arith)
            requires
                vabs(c) >= n + 1,
                n >= 0,
                vabs(c) == (if c >= 0 { c } else { -c }),
        ;
    }
}

/// Applying the fixed-point identity to a point returns the point.
pub proof fn lemma_apply_identity(v: Vec3)
    ensures
        spec_apply_point(spec_identity(), v) == v,
{
    lemma_tdiv_scale_exact(v.x as int);
    lemma_tdiv_scale_exact(v.y as int);
    lemma_tdiv_scale_exact(v.z as int);
    assert(fpm(1000, v.x as int) == v.x as int);
    assert(fpm(1000, v.y as int) == v.y as int);
    assert(fpm(1000, v.z as int) == v.z as int);
    assert(fpm(0, v.x as int) == 0);
    assert(fpm(0, v.y as int) == 0);
    assert(fpm(0, v.z as int) == 0);
    assert(fpm(0, 1000) == 0);
}

} // verus!
