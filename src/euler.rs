//! Yaw, pitch and roll, and their conversions to and from rotation matrices
//! and quaternions.
//!
//! One convention holds throughout: `Mat3::from_euler` builds the matrix
//! that `Euler::from_mat3` takes apart, `Mat3::from_quaternion` of
//! `Quaternion::from_euler(e)` is `Mat3::from_euler(e)` up to rounding, and
//! `Euler::from_quaternion(q)` reads the same angles as
//! `Euler::from_mat3(Mat3::from_quaternion(q))`. At pitch ±90° (gimbal lock)
//! roll is set to zero and yaw takes the whole turn about the vertical.

use crate::mat3::Mat3;
use crate::mat4::{embed3, Mat4};
use crate::quaternion::Quaternion;
use crate::scalar::{
    abs_of, asin_of, atan2_of, cos_of, greater, half_pi, lawful_float, magnitude_of, minus,
    near_one, near_one_ok, near_one_of, nearer_one, nearer_one_of, negated, one, one_of, plus,
    sin_of, times, total, two, two_of, zero, zero_of, FloatScalar,
};
use crate::vec3::Vec3;
use vstd::prelude::*;
use vstd::std_specs::cmp::PartialOrdSpec;
use vstd::std_specs::convert::FromSpec;
use vstd::std_specs::ops::{AddSpec, DivSpec, MulSpec, NegSpec, SubSpec};

verus! {

/// Three angles in radians: yaw about the vertical axis, then pitch, then roll.
#[derive(Clone, Copy, Debug, PartialEq, Default)]
pub struct Euler<T> {
    pub yaw: T,
    pub pitch: T,
    pub roll: T,
}

impl<T> Euler<T> {
    pub fn new(yaw: T, pitch: T, roll: T) -> (r: Self)
        ensures
            r == (Euler { yaw, pitch, roll }),
    {
        Euler { yaw, pitch, roll }
    }
}

/// The rotation matrix for the given cosines and sines of yaw, pitch and
/// roll; its row 1 is `(sr cp, cr cp, -sp)`.
pub open spec fn euler_matrix<T: FloatScalar>(cy: T, sy: T, cp: T, sp: T, cr: T, sr: T) -> Mat3<T> {
    Mat3 {
        mat: [
            [
                plus(times(cy, cr), times(times(sy, sp), sr)),
                plus(times(negated(cy), sr), times(times(sy, sp), cr)),
                times(sy, cp),
            ],
            [times(sr, cp), times(cr, cp), negated(sp)],
            [
                plus(times(negated(sy), cr), times(times(cy, sp), sr)),
                plus(times(sr, sy), times(times(cy, sp), cr)),
                times(cy, cp),
            ],
        ],
    }
}

/// The rotation quaternion for the given cosines and sines of half the yaw,
/// pitch and roll.
pub open spec fn euler_quaternion<T: FloatScalar>(cy: T, sy: T, cp: T, sp: T, cr: T, sr: T) -> Quaternion<T> {
    Quaternion {
        w: plus(times(times(cy, cp), cr), times(times(sy, sp), sr)),
        v: Vec3 {
            x: negated(plus(times(times(cy, sp), cr), times(times(sy, cp), sr))),
            y: negated(minus(times(times(sy, cp), cr), times(times(cy, sp), sr))),
            z: negated(minus(times(times(cy, cp), sr), times(times(sy, sp), cr))),
        },
    }
}

/// The sine of the pitch of `m`: minus the entry at row 1, column 2.
pub open spec fn pitch_sine<T: FloatScalar>(m: Mat3<T>) -> T {
    negated(m.at(1, 2))
}

/// The sine of the pitch of the rotation `q`: `-2 (y z + w x)`.
pub open spec fn quaternion_pitch_sine<T: FloatScalar>(q: Quaternion<T>) -> T {
    negated(times(two::<T>(), plus(times(q.v.y, q.v.z), times(q.w, q.v.x))))
}

impl<T: FloatScalar + num_traits::Float + num_traits::float::FloatConst> Euler<T> {
    /// The angles of the rotation matrix `m`. The pitch is the arcsine of
    /// `-m[1][2]`, clamped to ±π/2. When that sine is, in absolute value,
    /// past one ten-thousandth short of one (gimbal lock), roll is zero and
    /// yaw is read from column 0; otherwise roll comes from row 1 and yaw from
    /// column 2.
    pub fn from_mat3(m: Mat3<T>) -> (r: Self)
        requires
            lawful_float::<T>(),
            total::<T>(),
            near_one_ok::<T>(),
        ensures
            greater(magnitude_of(pitch_sine(m)), near_one::<T>()) ==> r.roll == zero::<T>(),
    {
        let a = &m.mat;
        let o = one_of::<T>();
        let sp = a[1][2].neg();
        let h = half_pi::<T>();
        let pitch = if sp <= o.neg() {
            h.neg()
        } else if sp >= o {
            h
        } else {
            asin_of(sp)
        };
        let r = if abs_of(sp) > near_one_of::<T>() {
            Euler { yaw: atan2_of(a[2][0].neg(), a[0][0]), pitch, roll: zero_of::<T>() }
        } else {
            Euler { yaw: atan2_of(a[0][2], a[2][2]), pitch, roll: atan2_of(a[1][0], a[1][1]) }
        };
        r
    }

    /// The angles of the rotation in the upper-left corner of `m`, as
    /// `from_mat3` reads them.
    pub fn from_mat4(m: Mat4<T>) -> (r: Self)
        requires
            lawful_float::<T>(),
            total::<T>(),
            near_one_ok::<T>(),
        ensures
            greater(magnitude_of(negated(m.at(1, 2))), near_one::<T>()) ==> r.roll == zero::<T>(),
    {
        let a = &m.mat;
        let u = Mat3 {
            mat: [[a[0][0], a[0][1], a[0][2]], [a[1][0], a[1][1], a[1][2]], [a[2][0], a[2][1], a[2][2]]],
        };
        Self::from_mat3(u)
    }

    /// The angles of the rotation `q`. When the pitch sine is, in absolute
    /// value, past one hundred-thousandth short of one (gimbal lock), roll is
    /// zero and pitch is ±π/2 by the sign of the pitch sine.
    pub fn from_quaternion(q: Quaternion<T>) -> (r: Self)
        requires
            lawful_float::<T>(),
            total::<T>(),
            near_one_ok::<T>(),
        ensures
            greater(magnitude_of(quaternion_pitch_sine(q)), nearer_one::<T>()) ==> r.roll == zero::<T>(),
    {
        let (w, x, y, z) = (q.w, q.v.x, q.v.y, q.v.z);
        let o = one_of::<T>();
        let t = two_of::<T>();
        let half = o / t;
        let sp = (t * (y * z + w * x)).neg();
        if abs_of(sp) > nearer_one_of::<T>() {
            let h = half_pi::<T>();
            Euler {
                yaw: atan2_of((x * z + w * y).neg(), half - y * y - z * z),
                pitch: if sp > zero_of::<T>() { h } else { h.neg() },
                roll: zero_of::<T>(),
            }
        } else {
            Euler {
                yaw: atan2_of(x * z - w * y, half - x * x - y * y),
                pitch: asin_of(sp),
                roll: atan2_of(x * y - w * z, half - x * x - z * z),
            }
        }
    }
}

impl<T: FloatScalar + num_traits::Float> Mat3<T> {
    /// The rotation matrix of the angles `e`, the one `Euler::from_mat3`
    /// takes apart.
    pub fn from_euler(e: Euler<T>) -> (r: Mat3<T>)
        requires
            lawful_float::<T>(),
            total::<T>(),
        ensures
            exists|cy: T, sy: T, cp: T, sp: T, cr: T, sr: T| r == #[trigger] euler_matrix(cy, sy, cp, sp, cr, sr),
    {
        let (cy, sy) = (cos_of(e.yaw), sin_of(e.yaw));
        let (cp, sp) = (cos_of(e.pitch), sin_of(e.pitch));
        let (cr, sr) = (cos_of(e.roll), sin_of(e.roll));
        let r = Mat3 {
            mat: [
                [cy * cr + sy * sp * sr, cy.neg() * sr + sy * sp * cr, sy * cp],
                [sr * cp, cr * cp, sp.neg()],
                [sy.neg() * cr + cy * sp * sr, sr * sy + cy * sp * cr, cy * cp],
            ],
        };
        assert(r == euler_matrix(cy, sy, cp, sp, cr, sr));
        r
    }
}

impl<T: FloatScalar + num_traits::Float> Mat4<T> {
    /// The rotation matrix of the angles `e` in the upper-left corner of the identity.
    pub fn from_euler(e: Euler<T>) -> (r: Mat4<T>)
        requires
            lawful_float::<T>(),
            total::<T>(),
        ensures
            exists|cy: T, sy: T, cp: T, sp: T, cr: T, sr: T| r == embed3(#[trigger] euler_matrix(cy, sy, cp, sp, cr, sr)),
    {
        let a = Mat3::from_euler(e);
        let z = zero_of::<T>();
        let o = one_of::<T>();
        let m = &a.mat;
        let r = Mat4 {
            mat: [
                [m[0][0], m[0][1], m[0][2], z],
                [m[1][0], m[1][1], m[1][2], z],
                [m[2][0], m[2][1], m[2][2], z],
                [z, z, z, o],
            ],
        };
        proof {
            let (cy, sy, cp, sp, cr, sr) = choose|cy: T, sy: T, cp: T, sp: T, cr: T, sr: T|
                a == #[trigger] euler_matrix(cy, sy, cp, sp, cr, sr);
            assert(r == embed3(euler_matrix(cy, sy, cp, sp, cr, sr)));
        }
        r
    }
}

impl<T: FloatScalar + num_traits::Float> Quaternion<T> {
    /// The rotation quaternion of the angles `e`, from the cosines and sines
    /// of their halves.
    pub fn from_euler(e: Euler<T>) -> (r: Quaternion<T>)
        requires
            lawful_float::<T>(),
            total::<T>(),
        ensures
            exists|cy: T, sy: T, cp: T, sp: T, cr: T, sr: T| r == #[trigger] euler_quaternion(cy, sy, cp, sp, cr, sr),
    {
        let t = two_of::<T>();
        let (yaw, pitch, roll) = (e.yaw / t, e.pitch / t, e.roll / t);
        let (cy, sy) = (cos_of(yaw), sin_of(yaw));
        let (cp, sp) = (cos_of(pitch), sin_of(pitch));
        let (cr, sr) = (cos_of(roll), sin_of(roll));
        let r = Quaternion {
            w: cy * cp * cr + sy * sp * sr,
            v: Vec3 {
                x: (cy * sp * cr + sy * cp * sr).neg(),
                y: (sy * cp * cr - cy * sp * sr).neg(),
                z: (cy * cp * sr - sy * sp * cr).neg(),
            },
        };
        assert(r == euler_quaternion(cy, sy, cp, sp, cr, sr));
        r
    }
}

} // verus!
